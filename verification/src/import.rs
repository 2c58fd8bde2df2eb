//! Octopus import prices for one explicitly requested UTC range.
use crate::binary64::Binary64;
use crate::config::MarketConfig;
use crate::slots::{is_barren, is_tidy, tidy, Timed};
use crate::utc::{instant_in_message, UtcTime};
use vstd::prelude::*;

verus! {

/// Why there are no import prices.
#[derive(Debug)]
pub enum ImportError {
    Unavailable(String),
    Http(String),
}

impl ImportError {
    /// The error as a message.
    pub fn message(&self) -> (r: String)
        ensures
            r@ == match self {
                ImportError::Unavailable(reason) => "Octopus import prices unavailable: "@
                    + reason@,
                ImportError::Http(reason) => "Octopus request failed: "@ + reason@,
            },
    {
        match self {
            ImportError::Unavailable(reason) => "Octopus import prices unavailable: ".to_owned()
                .concat(reason.as_str()),
            ImportError::Http(reason) => "Octopus request failed: ".to_owned().concat(
                reason.as_str(),
            ),
        }
    }
}

/// One half-hour of import prices.
#[derive(Debug, Clone, Copy, PartialEq)]
pub struct ImportSlot {
    pub start: UtcTime,
    pub price_p_per_kwh: Binary64,
}

impl Timed for ImportSlot {
    open spec fn starts(self) -> UtcTime {
        self.start
    }

    fn start(self) -> UtcTime {
        self.start
    }
}

/// Where import prices come from.
pub trait ImportSource: Send + Sync {
    /// What the source may answer to a request. A source that does not say may answer
    /// anything.
    open spec fn may_answer(
        &self,
        product: Seq<char>,
        tariff: Seq<char>,
        from: UtcTime,
        to: UtcTime,
        answer: Result<Vec<ImportSlot>, ImportError>,
    ) -> bool {
        true
    }

    fn fetch(&self, product: &str, tariff: &str, from: UtcTime, to: UtcTime) -> (answer: Result<
        Vec<ImportSlot>,
        ImportError,
    >)
        ensures
            self.may_answer(product@, tariff@, from, to, answer),
    ;
}

/// The published slots whose price is a finite number.
pub open spec fn priced(published: Seq<ImportSlot>) -> Seq<ImportSlot> {
    published.filter(|slot: ImportSlot| slot.price_p_per_kwh.spec_is_finite())
}

/// The published slots whose price is a finite number, in their order.
pub fn priced_slots(published: &Vec<ImportSlot>) -> (r: Vec<ImportSlot>)
    ensures
        r@ == priced(published@),
{
    let ghost finite = |slot: ImportSlot| slot.price_p_per_kwh.spec_is_finite();
    let mut slots: Vec<ImportSlot> = Vec::new();
    let mut i: usize = 0;
    assert(published@.take(0).filter(finite) =~= Seq::<ImportSlot>::empty()) by {
        reveal(Seq::filter);
    }
    while i < published.len()
        invariant
            i <= published@.len(),
            finite == (|slot: ImportSlot| slot.price_p_per_kwh.spec_is_finite()),
            slots@ == published@.take(i as int).filter(finite),
        decreases published@.len() - i,
    {
        proof {
            reveal(Seq::filter);
            assert(published@.take(i + 1).drop_last() =~= published@.take(i as int));
        }
        if published[i].price_p_per_kwh.is_finite() {
            slots.push(published[i]);
        }
        i += 1;
    }
    assert(published@.take(i as int) =~= published@);
    slots
}

/// That a range has no usable slot, with its ends as a message shows them.
pub open spec fn no_slots(from: Seq<char>, to: Seq<char>) -> Seq<char> {
    "no usable slots from "@ + from + " to "@ + to
}

/// That a range has no usable slot, with its ends as a message shows them.
pub fn no_slots_text(from: &str, to: &str) -> (r: String)
    ensures
        r@ == no_slots(from@, to@),
{
    let mut reason = "no usable slots from ".to_owned();
    reason.append(from);
    reason.append(" to ");
    reason.append(to);
    reason
}

/// What an answer of the source comes to: its error, the slots of the range in order, or
/// that the range has none.
pub open spec fn is_selection(
    r: Result<Vec<ImportSlot>, ImportError>,
    answer: Result<Vec<ImportSlot>, ImportError>,
    start: UtcTime,
    end: UtcTime,
) -> bool {
    match answer {
        Err(error) => r == Err::<Vec<ImportSlot>, ImportError>(error),
        Ok(published) => if is_barren(published@, start, end) {
            r matches Err(ImportError::Unavailable(reason)) && reason@ == no_slots(
                instant_in_message(start.secs(), start.nanos()),
                instant_in_message(end.secs(), end.nanos()),
            )
        } else {
            r matches Ok(slots) && is_tidy(slots@, published@, start, end)
        },
    }
}

/// The slots of a range that an answer of the source holds. Missing and unpublished slots
/// are never filled with invented prices.
pub fn select_slots(
    answer: Result<Vec<ImportSlot>, ImportError>,
    start: UtcTime,
    end: UtcTime,
) -> (r: Result<Vec<ImportSlot>, ImportError>)
    ensures
        is_selection(r, answer, start, end),
{
    let published = match answer {
        Ok(published) => published,
        Err(error) => {
            return Err(error);
        },
    };
    let slots = tidy(&published, start, end);
    if slots.len() == 0 {
        let reason = no_slots_text(start.message_text().as_str(), end.message_text().as_str());
        return Err(ImportError::Unavailable(reason));
    }
    Ok(slots)
}

/// Import prices of one tariff.
pub struct OctopusImports<S: ImportSource> {
    pub cfg: MarketConfig,
    pub source: S,
}

impl<S: ImportSource> OctopusImports<S> {
    /// Supply another provider or an offline source through the same interface.
    pub fn with_source(cfg: MarketConfig, source: S) -> (r: OctopusImports<S>)
        ensures
            r.cfg == cfg,
            r.source == source,
    {
        OctopusImports { cfg, source }
    }

    /// What the source may come to for a range.
    pub open spec fn may_give(
        &self,
        start: UtcTime,
        end: UtcTime,
        r: Result<Vec<ImportSlot>, ImportError>,
    ) -> bool {
        exists|answer: Result<Vec<ImportSlot>, ImportError>|
            #[trigger] self.source.may_answer(
                self.cfg.import_product@,
                self.cfg.import_tariff@,
                start,
                end,
                answer,
            ) && is_selection(r, answer, start, end)
    }

    /// The published prices of a range.
    pub fn get_slots(&self, start: UtcTime, end: UtcTime) -> (r: Result<
        Vec<ImportSlot>,
        ImportError,
    >)
        ensures
            self.may_give(start, end, r),
    {
        let answer = self.source.fetch(
            self.cfg.import_product.as_str(),
            self.cfg.import_tariff.as_str(),
            start,
            end,
        );
        select_slots(answer, start, end)
    }
}

} // verus!
