//! Laws of settings and of JSON documents.
use crate::axle::event_url;
use crate::binary64::Binary64;
use crate::config::{is_reward, is_safe_url, region_of, AxleConfig};
use crate::json::{value_of, Field, Json};
use crate::text::is_blank;
use vstd::prelude::*;

verus! {

/// The region is the last character of the tariff, where that is one of the fourteen region
/// letters and stands alone or behind a hyphen; else there is none.
pub proof fn law_region_is_the_letter_behind_the_last_hyphen(tariff: Seq<char>)
    ensures
        region_of(tariff) matches Some(c) ==> tariff.len() > 0 && tariff.last() == c
            && "ABCDEFGHJKLMNP"@.contains(c) && (tariff.len() == 1 || tariff[tariff.len() - 2]
            == '-'),
        tariff.len() > 0 && "ABCDEFGHJKLMNP"@.contains(tariff.last()) && (tariff.len() == 1
            || tariff[tariff.len() - 2] == '-') ==> region_of(tariff) == Some(tariff.last()),
{
    reveal_strlit("ABCDEFGHJKLMNP");
    let letters = "ABCDEFGHJKLMNP"@;
    assert(letters =~= seq![
        'A',
        'B',
        'C',
        'D',
        'E',
        'F',
        'G',
        'H',
        'J',
        'K',
        'L',
        'M',
        'N',
        'P',
    ]);
    if let Some(c) = region_of(tariff) {
        let n = c as int - 65;
        let i = if n < 8 {
            n
        } else if n < 14 {
            n - 1
        } else {
            n - 2
        };
        assert(letters[i] == c);
    }
}

/// The settings can be used where both rewards are finite and not below zero and, if the feed
/// is enabled, its address is safe and its key is not blank. What is wrong is named in that
/// order.
pub proof fn law_settings_are_usable_with_rewards_address_and_key(cfg: AxleConfig)
    ensures
        cfg.is_usable() <==> {
            &&& cfg.export_reward_p_per_kwh.spec_is_finite() && (Binary64 { bits: 0 }).le(
                cfg.export_reward_p_per_kwh,
            )
            &&& cfg.import_reward_p_per_kwh.spec_is_finite() && (Binary64 { bits: 0 }).le(
                cfg.import_reward_p_per_kwh,
            )
            &&& !cfg.enabled || is_safe_url(cfg.api_url@) && !is_blank(cfg.api_key@)
        },
        !cfg.is_usable() ==> {
            &&& !is_reward(cfg.export_reward_p_per_kwh) || !is_reward(cfg.import_reward_p_per_kwh)
                ==> cfg.complaint() == "Axle planning rewards must be finite and non-negative"@
            &&& is_reward(cfg.export_reward_p_per_kwh) && is_reward(cfg.import_reward_p_per_kwh)
                && !is_safe_url(cfg.api_url@) ==> cfg.complaint()
                == "axle.api_url must use HTTPS (HTTP is allowed only for loopback development)"@
            &&& is_reward(cfg.export_reward_p_per_kwh) && is_reward(cfg.import_reward_p_per_kwh)
                && is_safe_url(cfg.api_url@) ==> cfg.complaint()
                == "axle.api_key is required when axle is enabled"@
        },
{
}

/// Settings that no member changed have no feed, can be used, and once enabled lack but a key.
pub proof fn law_unchanged_settings_lack_a_key(cfg: AxleConfig, enabled: AxleConfig)
    requires
        cfg.is_default(),
        enabled == (AxleConfig { enabled: true, ..cfg }),
    ensures
        !cfg.enabled,
        !cfg.self_dispatch,
        cfg.is_usable(),
        !enabled.is_usable(),
        enabled.complaint() == "axle.api_key is required when axle is enabled"@,
        forall|key: String|
            !is_blank(key@) ==> #[trigger] (AxleConfig { api_key: key, ..enabled }).is_usable(),
        cfg.api_url@ == "https://api.axle.energy"@,
        cfg.export_reward_p_per_kwh.bits == 0x4059_0000_0000_0000,
        cfg.import_reward_p_per_kwh.bits == 0,
{
    reveal_strlit("https://");
    reveal_strlit("https://api.axle.energy");
    assert("https://"@ =~= "https://api.axle.energy"@.subrange(0, 8));
}

/// An address is safe over HTTPS, whatever follows; over HTTP only behind `localhost`,
/// `127.0.0.1` or `[::1]` with a slash or a colon next; and over nothing else.
pub proof fn law_addresses_are_safe_over_https_or_on_this_machine(url: Seq<char>)
    ensures
        "https://"@.is_prefix_of(url) ==> is_safe_url(url),
        is_safe_url(url) && !"https://"@.is_prefix_of(url) ==> {
            ||| "http://localhost"@.is_prefix_of(url)
            ||| "http://127.0.0.1"@.is_prefix_of(url)
            ||| "http://[::1]"@.is_prefix_of(url)
        },
        forall|host: Seq<char>|
            (host == "http://localhost"@ || host == "http://127.0.0.1"@ || host == "http://[::1]"@)
                && #[trigger] host.is_prefix_of(url) && !"https://"@.is_prefix_of(url) ==> (
            is_safe_url(url) <==> url.len() > host.len() && (url[host.len() as int] == '/' || url[
            host.len() as int] == ':')),
{
    reveal_strlit("https://");
    reveal_strlit("http://localhost");
    reveal_strlit("http://127.0.0.1");
    reveal_strlit("http://[::1]");
    reveal_strlit("http://localhost/");
    reveal_strlit("http://localhost:");
    reveal_strlit("http://127.0.0.1/");
    reveal_strlit("http://127.0.0.1:");
    reveal_strlit("http://[::1]/");
    reveal_strlit("http://[::1]:");
    lemma_one_more_character("http://localhost"@, "http://localhost/"@, "http://localhost:"@, url);
    lemma_one_more_character("http://127.0.0.1"@, "http://127.0.0.1/"@, "http://127.0.0.1:"@, url);
    lemma_one_more_character("http://[::1]"@, "http://[::1]/"@, "http://[::1]:"@, url);
    let l = "http://localhost"@;
    let n = "http://127.0.0.1"@;
    let s = "http://[::1]"@;
    assert(l[7] == 'l' && n[7] == '1' && s[7] == '[');
    if l.is_prefix_of(url) {
        assert(url.subrange(0, l.len() as int)[7] == url[7]);
    }
    if n.is_prefix_of(url) {
        assert(url.subrange(0, n.len() as int)[7] == url[7]);
    }
    if s.is_prefix_of(url) {
        assert(url.subrange(0, s.len() as int)[7] == url[7]);
    }
}

proof fn lemma_one_more_character(
    host: Seq<char>,
    slash: Seq<char>,
    colon: Seq<char>,
    url: Seq<char>,
)
    requires
        slash =~= host.push('/'),
        colon =~= host.push(':'),
    ensures
        slash.is_prefix_of(url) <==> host.is_prefix_of(url) && url.len() > host.len() && url[
        host.len() as int] == '/',
        colon.is_prefix_of(url) <==> host.is_prefix_of(url) && url.len() > host.len() && url[
        host.len() as int] == ':',
{
    let n = host.len() as int;
    if url.len() > n {
        assert(url.subrange(0, n + 1) =~= url.subrange(0, n).push(url[n]));
        assert(host.push('/').subrange(0, n) =~= host);
        assert(host.push(':').subrange(0, n) =~= host);
        assert(url.subrange(0, n + 1).subrange(0, n) =~= url.subrange(0, n));
        assert(slash[n] == '/' && colon[n] == ':');
        assert(url.subrange(0, n + 1)[n] == url[n]);
    }
}

/// The feed lies below the configured address, with one slash between the two however many
/// the address ends with.
pub proof fn law_feed_lies_below_the_address(api_url: Seq<char>)
    ensures
        "/vpp/home-assistant/event"@.is_suffix_of(event_url(api_url)),
        event_url(api_url.push('/')) == event_url(api_url),
        api_url.len() == 0 || api_url.last() != '/' ==> event_url(api_url) == api_url
            + "/vpp/home-assistant/event"@,
{
    let path = "/vpp/home-assistant/event"@;
    let url = event_url(api_url);
    assert(url.subrange(url.len() - path.len(), url.len() as int) =~= path);
    assert(api_url.push('/').drop_last() =~= api_url);
}

/// The value of a field is that of the first field with its name; what is no record, or has no
/// such field, has no value for it.
pub proof fn law_fields_are_found_by_name(fields: Seq<Field>, name: Seq<char>, k: int)
    ensures
        0 <= k < fields.len() && fields[k].name@ == name && (forall|i: int|
            0 <= i < k ==> (#[trigger] fields[i]).name@ != name) ==> value_of(fields, name) == Some(
            fields[k].value,
        ),
        (forall|i: int| 0 <= i < fields.len() ==> (#[trigger] fields[i]).name@ != name)
            ==> value_of(fields, name) is None,
    decreases fields.len(),
{
    if fields.len() > 0 {
        let rest = fields.drop_first();
        law_fields_are_found_by_name(rest, name, k - 1);
        assert forall|i: int| 0 <= i < rest.len() implies rest[i] == #[trigger] fields[i + 1] by {}
        if 0 < k < fields.len() && fields[k].name@ == name && (forall|i: int|
            0 <= i < k ==> (#[trigger] fields[i]).name@ != name) {
            assert(fields[0].name@ != name);
            assert forall|i: int| 0 <= i < k - 1 implies (#[trigger] rest[i]).name@ != name by {
                assert(fields[i + 1].name@ != name);
            }
        }
        if forall|i: int| 0 <= i < fields.len() ==> (#[trigger] fields[i]).name@ != name {
            assert(fields[0].name@ != name);
            assert forall|i: int| 0 <= i < rest.len() implies (#[trigger] rest[i]).name@ != name by {
                assert(fields[i + 1].name@ != name);
            }
        }
    }
}

/// Only a record has fields, only a text in a field is a text field, only a number a number
/// field, and only a list under `results` gives rows.
pub proof fn law_fields_have_their_kind(value: Json, name: Seq<char>)
    ensures
        !(value is Record) ==> value.spec_field(name) is None,
        value matches Json::Record(fields) ==> value.spec_field(name) == value_of(fields@, name),
        value.spec_text_field(name) matches Some(text) ==> value.spec_field(name) == Some(
            Json::Text(text),
        ),
        value.spec_field(name) matches Some(Json::Text(text)) ==> value.spec_text_field(name)
            == Some(text),
        value.spec_number_field(name) matches Some(number) ==> value.spec_field(name) == Some(
            Json::Number(number),
        ),
        value.spec_field(name) matches Some(Json::Number(number)) ==> value.spec_number_field(name)
            == Some(number),
        value.spec_field("results"@) matches Some(Json::List(rows)) ==> value.spec_results()
            == rows@,
        !(value.spec_field("results"@) matches Some(Json::List(_))) ==> value.spec_results().len()
            == 0,
{
}

} // verus!
