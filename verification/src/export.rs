//! Published Octopus export prices.
use crate::binary64::Binary64;
use crate::config::MarketConfig;
use crate::json::Json;
use crate::slots::{is_barren, is_tidy, tidy, Timed};
use crate::utc::{instant_in_message, read_time, time_of, UtcTime};
use vstd::prelude::*;

verus! {

/// Why there are no export prices.
#[derive(Debug)]
pub enum ExportPriceError {
    Unavailable(String),
    Http(String),
}

impl ExportPriceError {
    /// The error as a message.
    pub fn message(&self) -> (r: String)
        ensures
            r@ == match self {
                ExportPriceError::Unavailable(reason) => "Octopus export prices unavailable: "@
                    + reason@,
                ExportPriceError::Http(reason) => "Octopus export request failed: "@ + reason@,
            },
    {
        match self {
            ExportPriceError::Unavailable(reason) => "Octopus export prices unavailable: "
                .to_owned().concat(reason.as_str()),
            ExportPriceError::Http(reason) => "Octopus export request failed: ".to_owned().concat(
                reason.as_str(),
            ),
        }
    }
}

/// One half-hour of the supplier's export prices.
#[derive(Debug, Clone, Copy, PartialEq)]
pub struct ExportPriceSlot {
    pub start: UtcTime,
    pub price_p_per_kwh: Binary64,
}

impl Timed for ExportPriceSlot {
    open spec fn starts(self) -> UtcTime {
        self.start
    }

    fn start(self) -> UtcTime {
        self.start
    }
}

/// Where export prices come from.
pub trait ExportPriceSource: Send + Sync {
    /// What the source may answer to a request. A source that does not say may answer
    /// anything.
    open spec fn may_answer(
        &self,
        product: Seq<char>,
        tariff: Seq<char>,
        from: UtcTime,
        to: UtcTime,
        answer: Result<Vec<ExportPriceSlot>, ExportPriceError>,
    ) -> bool {
        true
    }

    fn fetch(&self, product: &str, tariff: &str, from: UtcTime, to: UtcTime) -> (answer: Result<
        Vec<ExportPriceSlot>,
        ExportPriceError,
    >)
        ensures
            self.may_answer(product@, tariff@, from, to, answer),
    ;
}

/// The slot of a start and a finite price.
pub open spec fn slot_at(start: Option<UtcTime>, price: Option<Binary64>) -> Option<
    ExportPriceSlot,
> {
    match (start, price) {
        (Some(start), Some(price_p_per_kwh)) => if price_p_per_kwh.spec_is_finite() {
            Some(ExportPriceSlot { start, price_p_per_kwh })
        } else {
            None
        },
        _ => None,
    }
}

/// The slot of a start and a finite price.
pub fn priced_at(start: Option<UtcTime>, price: Option<Binary64>) -> (r: Option<ExportPriceSlot>)
    ensures
        r == slot_at(start, price),
{
    match (start, price) {
        (Some(start), Some(price_p_per_kwh)) => if price_p_per_kwh.is_finite() {
            Some(ExportPriceSlot { start, price_p_per_kwh })
        } else {
            None
        },
        _ => None,
    }
}

/// The slot of a row that has a start and a finite price.
pub open spec fn slot_of(row: Json) -> Option<ExportPriceSlot> {
    slot_at(
        time_of(row.spec_text_field("valid_from"@)),
        row.spec_number_field("value_inc_vat"@),
    )
}

/// The slots of the rows that have one.
pub open spec fn slots_of(rows: Seq<Json>) -> Seq<ExportPriceSlot>
    decreases rows.len(),
{
    if rows.len() == 0 {
        Seq::empty()
    } else {
        match slot_of(rows.last()) {
            Some(slot) => slots_of(rows.drop_last()).push(slot),
            None => slots_of(rows.drop_last()),
        }
    }
}

fn export_slot(row: &Json) -> (r: Option<ExportPriceSlot>)
    ensures
        r == slot_of(*row),
{
    priced_at(read_time(row.text_field("valid_from")), row.number_field("value_inc_vat"))
}

/// The slots of a response. A row without a start or a finite price is passed over.
pub fn export_slots(payload: &Json) -> (r: Vec<ExportPriceSlot>)
    ensures
        r@ == slots_of(payload.spec_results()),
{
    let mut slots: Vec<ExportPriceSlot> = Vec::new();
    let rows = match payload.results() {
        Some(rows) => rows,
        None => {
            return slots;
        },
    };
    let mut i: usize = 0;
    while i < rows.len()
        invariant
            i <= rows@.len(),
            slots@ == slots_of(rows@.take(i as int)),
        decreases rows@.len() - i,
    {
        assert(rows@.take(i + 1).drop_last() =~= rows@.take(i as int));
        if let Some(slot) = export_slot(&rows[i]) {
            slots.push(slot);
        }
        i += 1;
    }
    assert(rows@.take(i as int) =~= rows@);
    slots
}

/// That a range has no usable slot, with its start as a message shows it.
pub open spec fn no_slots(from: Seq<char>) -> Seq<char> {
    "no usable slots from "@ + from
}

/// That a range has no usable slot, with its start as a message shows it.
pub fn no_slots_text(from: &str) -> (r: String)
    ensures
        r@ == no_slots(from@),
{
    "no usable slots from ".to_owned().concat(from)
}

/// What an answer of the source comes to: its error, the slots of the range in order, or
/// that the range has none.
pub open spec fn is_selection(
    r: Result<Vec<ExportPriceSlot>, ExportPriceError>,
    answer: Result<Vec<ExportPriceSlot>, ExportPriceError>,
    start: UtcTime,
    end: UtcTime,
) -> bool {
    match answer {
        Err(error) => r == Err::<Vec<ExportPriceSlot>, ExportPriceError>(error),
        Ok(published) => if is_barren(published@, start, end) {
            r matches Err(ExportPriceError::Unavailable(reason)) && reason@ == no_slots(
                instant_in_message(start.secs(), start.nanos()),
            )
        } else {
            r matches Ok(slots) && is_tidy(slots@, published@, start, end)
        },
    }
}

/// The slots of a range that an answer of the source holds.
pub fn select_slots(
    answer: Result<Vec<ExportPriceSlot>, ExportPriceError>,
    start: UtcTime,
    end: UtcTime,
) -> (r: Result<Vec<ExportPriceSlot>, ExportPriceError>)
    ensures
        is_selection(r, answer, start, end),
{
    let published = match answer {
        Ok(published) => published,
        Err(error) => {
            return Err(error);
        },
    };
    let slots = tidy(&published, start, end);
    if slots.len() == 0 {
        return Err(
            ExportPriceError::Unavailable(no_slots_text(start.message_text().as_str())),
        );
    }
    Ok(slots)
}

/// Export prices of one tariff.
pub struct OctopusExports<S: ExportPriceSource> {
    pub cfg: MarketConfig,
    pub source: S,
}

impl<S: ExportPriceSource> OctopusExports<S> {
    /// Supply another provider or an offline source through the same interface.
    pub fn with_source(cfg: MarketConfig, source: S) -> (r: OctopusExports<S>)
        ensures
            r.cfg == cfg,
            r.source == source,
    {
        OctopusExports { cfg, source }
    }

    /// Both the export product and the tariff are known.
    pub open spec fn is_configured(&self) -> bool {
        self.cfg.export_product@.len() > 0 && self.cfg.export_tariff@.len() > 0
    }

    /// What may come of a request for a range: without a product and a tariff the source is
    /// not asked.
    pub open spec fn may_give(
        &self,
        start: UtcTime,
        end: UtcTime,
        r: Result<Vec<ExportPriceSlot>, ExportPriceError>,
    ) -> bool {
        if self.is_configured() {
            exists|answer: Result<Vec<ExportPriceSlot>, ExportPriceError>|
                #[trigger] self.source.may_answer(
                    self.cfg.export_product@,
                    self.cfg.export_tariff@,
                    start,
                    end,
                    answer,
                ) && is_selection(r, answer, start, end)
        } else {
            r matches Err(ExportPriceError::Unavailable(reason)) && reason@
                == "export product and tariff are not configured"@
        }
    }

    /// The published prices of a range.
    pub fn get_slots(&self, start: UtcTime, end: UtcTime) -> (r: Result<
        Vec<ExportPriceSlot>,
        ExportPriceError,
    >)
        ensures
            self.may_give(start, end, r),
    {
        if self.cfg.export_product.as_str().is_empty() || self.cfg.export_tariff.as_str().is_empty() {
            return Err(
                ExportPriceError::Unavailable(
                    "export product and tariff are not configured".to_owned(),
                ),
            );
        }
        let answer = self.source.fetch(
            self.cfg.export_product.as_str(),
            self.cfg.export_tariff.as_str(),
            start,
            end,
        );
        select_slots(answer, start, end)
    }
}

/// Slots that a client gives stem from an answer that its source may give.
pub proof fn lemma_slots_stem_from_an_answer<S: ExportPriceSource>(
    client: OctopusExports<S>,
    start: UtcTime,
    end: UtcTime,
    slots: Vec<ExportPriceSlot>,
) -> (published: Vec<ExportPriceSlot>)
    requires
        client.may_give(start, end, Ok(slots)),
    ensures
        client.source.may_answer(
            client.cfg.export_product@,
            client.cfg.export_tariff@,
            start,
            end,
            Ok(published),
        ),
        is_tidy(slots@, published@, start, end),
{
    let given: Result<Vec<ExportPriceSlot>, ExportPriceError> = Ok(slots);
    assert(client.is_configured());
    let answer = choose|answer: Result<Vec<ExportPriceSlot>, ExportPriceError>|
        #[trigger] client.source.may_answer(
            client.cfg.export_product@,
            client.cfg.export_tariff@,
            start,
            end,
            answer,
        ) && is_selection(given, answer, start, end);
    assert(is_selection(given, answer, start, end));
    assert(answer is Ok);
    answer->Ok_0
}

} // verus!
