//! Collection of historical mean-temperature samples.
//!
//! One fetch is made per scheduled year.  A failed fetch contributes an error
//! message naming the year and is dropped from the sample list; a successful
//! fetch whose mean-temperature value is absent contributes a sample with the
//! placeholder text `N/A`.  Output order follows schedule order.

use crate::dates::{date_chars, dec_digits, format_date, format_u32};
use crate::report::TextField;
use vstd::prelude::*;
use vstd::string::*;

verus! {

/// A decoded historical response: the first element of the
/// `daily.temperature_2m_mean` array, as text, if there is one.
#[derive(Clone, Debug, PartialEq, Eq)]
pub struct HistoricalPayload {
    pub first_mean: Option<String>,
}

/// One sampled year: the queried date and the mean temperature as text.
#[derive(Clone, Debug, PartialEq, Eq)]
pub struct HistoricalSample {
    pub year: i32,
    pub date: String,
    pub mean_temperature: String,
}

/// Model of `HistoricalSample`.
#[verifier::ext_equal]
pub ghost struct SampleModel {
    pub year: i32,
    pub date: Seq<char>,
    pub mean_temperature: Seq<char>,
}

impl View for HistoricalPayload {
    type V = TextField;

    open spec fn view(&self) -> TextField {
        match self.first_mean {
            Some(s) => Some(s@),
            None => None,
        }
    }
}

impl View for HistoricalSample {
    type V = SampleModel;

    open spec fn view(&self) -> SampleModel {
        SampleModel {
            year: self.year,
            date: self.date@,
            mean_temperature: self.mean_temperature@,
        }
    }
}

/// The outcome of one year's fetch, at the model level: the decoded mean
/// text on success, the cause on failure.
pub type OutcomeModel = Result<TextField, Seq<char>>;

/// The model of one fetch outcome.
pub open spec fn outcome_model(o: Result<HistoricalPayload, String>) -> OutcomeModel {
    match o {
        Ok(p) => Ok(p@),
        Err(e) => Err(e@),
    }
}

/// An absent mean temperature becomes the placeholder text `N/A`.
pub open spec fn mean_text(m: TextField) -> Seq<char> {
    match m {
        Some(s) => s,
        None => seq!['N', '/', 'A'],
    }
}

/// The error message recorded for a year whose fetch failed.
pub open spec fn history_error_text(year: int, cause: Seq<char>) -> Seq<char> {
    "Error fetching historical data for "@ + dec_digits(year) + ": "@ + cause
}

/// The samples and error messages produced by a run over the scheduled
/// years, in schedule order.
pub open spec fn history_model(
    years: Seq<i32>,
    month: int,
    day: int,
    outs: Seq<OutcomeModel>,
) -> (Seq<SampleModel>, Seq<Seq<char>>)
    decreases outs.len(),
{
    if outs.len() == 0 {
        (Seq::empty(), Seq::empty())
    } else {
        let prev = history_model(years.drop_last(), month, day, outs.drop_last());
        let y = years[outs.len() - 1];
        match outs.last() {
            Ok(mean) => (
                prev.0.push(
                    SampleModel {
                        year: y,
                        date: date_chars(y as int, month, day),
                        mean_temperature: mean_text(mean),
                    },
                ),
                prev.1,
            ),
            Err(cause) => (prev.0, prev.1.push(history_error_text(y as int, cause))),
        }
    }
}

/// Number of failed fetches among the outcomes.
pub open spec fn err_count(outs: Seq<OutcomeModel>) -> int
    decreases outs.len(),
{
    if outs.len() == 0 {
        0
    } else {
        err_count(outs.drop_last()) + if outs.last() is Err {
            1int
        } else {
            0int
        }
    }
}

/// Every scheduled year lands in exactly one of the two output lists: the
/// sample list and the error list together have one entry per year, and the
/// error list has exactly one entry per failed fetch.
pub proof fn lemma_history_partition(
    years: Seq<i32>,
    month: int,
    day: int,
    outs: Seq<OutcomeModel>,
)
    ensures
        history_model(years, month, day, outs).0.len() + history_model(
            years,
            month,
            day,
            outs,
        ).1.len() == outs.len(),
        history_model(years, month, day, outs).1.len() == err_count(outs),
        0 <= err_count(outs) <= outs.len(),
    decreases outs.len(),
{
    if outs.len() > 0 {
        lemma_history_partition(years.drop_last(), month, day, outs.drop_last());
    }
}

/// When exactly one scheduled year fails, the report keeps one sample per
/// remaining year and carries exactly one error message, which names the
/// failed year.
pub proof fn lemma_history_partial_failure(
    years: Seq<i32>,
    month: int,
    day: int,
    outs: Seq<OutcomeModel>,
    k: int,
    cause: Seq<char>,
)
    requires
        years.len() == outs.len(),
        0 <= k < outs.len(),
        outs[k] == Err::<TextField, Seq<char>>(cause),
        forall|j: int| 0 <= j < outs.len() && j != k ==> outs[j] is Ok,
    ensures
        history_model(years, month, day, outs).0.len() == outs.len() - 1,
        history_model(years, month, day, outs).1 =~= seq![
            history_error_text(years[k] as int, cause),
        ],
    decreases outs.len(),
{
    lemma_history_partition(years, month, day, outs);
    if k == outs.len() - 1 {
        assert(err_count(outs.drop_last()) == 0) by {
            lemma_err_count_all_ok(outs.drop_last());
        }
        lemma_history_partition(years.drop_last(), month, day, outs.drop_last());
    } else {
        lemma_history_partial_failure(
            years.drop_last(),
            month,
            day,
            outs.drop_last(),
            k,
            cause,
        );
    }
}

/// A run with no failed fetch records no error.
pub proof fn lemma_err_count_all_ok(outs: Seq<OutcomeModel>)
    requires
        forall|j: int| 0 <= j < outs.len() ==> outs[j] is Ok,
    ensures
        err_count(outs) == 0,
    decreases outs.len(),
{
    if outs.len() > 0 {
        lemma_err_count_all_ok(outs.drop_last());
    }
}

/// The placeholder text recorded when the mean temperature is absent.
pub fn na_text() -> (s: String)
    ensures
        s@ =~= seq!['N', '/', 'A'],
{
    proof {
        reveal_strlit("N/A");
    }
    "N/A".to_owned()
}

/// Builds the sample for one successfully fetched year.
pub fn historical_sample(year: i32, month: u8, day: u8, p: HistoricalPayload) -> (s:
    HistoricalSample)
    requires
        0 <= year,
        month < 100,
        day < 100,
    ensures
        s@.year == year,
        s@.date =~= date_chars(year as int, month as int, day as int),
        s@.mean_temperature =~= mean_text(p@),
{
    let date = format_date(year, month, day);
    let mean_temperature = match p.first_mean {
        Some(t) => t,
        None => na_text(),
    };
    HistoricalSample { year, date, mean_temperature }
}

/// Builds the error message for one year whose fetch failed.
pub fn history_error_message(year: i32, cause: String) -> (m: String)
    requires
        0 <= year,
    ensures
        m@ =~= history_error_text(year as int, cause@),
{
    proof {
        reveal_strlit("Error fetching historical data for ");
        reveal_strlit(": ");
    }
    let mut m = String::from_str("Error fetching historical data for ");
    let digits = format_u32(year as u32);
    m.append(digits.as_str());
    m.append(": ");
    m.append(cause.as_str());
    m
}

/// Runs over the scheduled years in order and splits the fetch outcomes into
/// samples and error messages.
pub fn collect_history(
    years: &Vec<i32>,
    month: u8,
    day: u8,
    outcomes: Vec<Result<HistoricalPayload, String>>,
) -> (r: (Vec<HistoricalSample>, Vec<String>))
    requires
        outcomes@.len() == years@.len(),
        forall|i: int| 0 <= i < years@.len() ==> 0 <= #[trigger] years@[i],
        month < 100,
        day < 100,
    ensures
        ({
            let hm = history_model(
                years@,
                month as int,
                day as int,
                outcomes@.map_values(|o: Result<HistoricalPayload, String>| outcome_model(o)),
            );
            &&& r.0@.len() == hm.0.len()
            &&& forall|j: int| 0 <= j < r.0@.len() ==> #[trigger] r.0@[j]@ == hm.0[j]
            &&& r.1@.len() == hm.1.len()
            &&& forall|j: int| 0 <= j < r.1@.len() ==> #[trigger] r.1@[j]@ == hm.1[j]
        }),
{
    let ghost orig = outcomes@.map_values(
        |o: Result<HistoricalPayload, String>| outcome_model(o),
    );
    let mut rest = outcomes;
    let mut samples: Vec<HistoricalSample> = Vec::new();
    let mut errors: Vec<String> = Vec::new();
    let total = years.len();
    let mut i: usize = 0;
    while rest.len() > 0
        invariant
            total == years@.len(),
            i + rest@.len() == orig.len(),
            orig.len() == years@.len(),
            forall|k: int| 0 <= k < years@.len() ==> 0 <= #[trigger] years@[k],
            month < 100,
            day < 100,
            forall|j: int|
                0 <= j < rest@.len() ==> outcome_model(#[trigger] rest@[j]) == orig[i + j],
            ({
                let hm = history_model(years@.take(i as int), month as int, day as int, orig.take(i as int));
                &&& samples@.len() == hm.0.len()
                &&& forall|j: int| 0 <= j < samples@.len() ==> #[trigger] samples@[j]@ == hm.0[j]
                &&& errors@.len() == hm.1.len()
                &&& forall|j: int| 0 <= j < errors@.len() ==> #[trigger] errors@[j]@ == hm.1[j]
            }),
        decreases rest@.len(),
    {
        let o = rest.remove(0);
        proof {
            assert(outcome_model(o) == orig[i as int]);
        }
        let year = years[i];
        match o {
            Ok(p) => {
                let s = historical_sample(year, month, day, p);
                samples.push(s);
            },
            Err(cause) => {
                let m = history_error_message(year, cause);
                errors.push(m);
            },
        }
        proof {
            assert(orig.take(i + 1).drop_last() =~= orig.take(i as int));
            assert(years@.take(i + 1).drop_last() =~= years@.take(i as int));
            assert(orig.take(i + 1).last() == orig[i as int]);
            assert(years@.take(i + 1)[i as int] == years@[i as int]);
            let hm_next = history_model(
                years@.take(i + 1),
                month as int,
                day as int,
                orig.take(i + 1),
            );
            let hm_prev = history_model(
                years@.take(i as int),
                month as int,
                day as int,
                orig.take(i as int),
            );
            match orig[i as int] {
                Ok(mean) => {
                    assert(hm_next.0 == hm_prev.0.push(
                        SampleModel {
                            year: years@[i as int],
                            date: date_chars(years@[i as int] as int, month as int, day as int),
                            mean_temperature: mean_text(mean),
                        },
                    ));
                    assert(samples@[samples@.len() - 1]@ =~= hm_next.0[hm_next.0.len() - 1]);
                },
                Err(cause) => {
                    assert(hm_next.1 == hm_prev.1.push(
                        history_error_text(years@[i as int] as int, cause),
                    ));
                    assert(errors@[errors@.len() - 1]@ =~= hm_next.1[hm_next.1.len() - 1]);
                },
            }
        }
        assert(i < total);
        i = i + 1;
    }
    proof {
        assert(orig.take(i as int) =~= orig);
        assert(years@.take(i as int) =~= years@);
    }
    (samples, errors)
}

} // verus!
