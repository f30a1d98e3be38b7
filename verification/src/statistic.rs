use vstd::prelude::*;
use vstd::string::*;
use crate::error::RequestError;

verus! {

/// The aggregations that every data point may carry.
#[derive(Clone, Copy, Debug, PartialEq, Eq, Structural)]
pub enum Statistic {
    SampleCount,
    Sum,
    Maximum,
    Average,
    Minimum,
}

/// The name under which the monitoring service knows a statistic.
pub open spec fn statistic_name(s: Statistic) -> Seq<char> {
    match s {
        Statistic::SampleCount => "SampleCount"@,
        Statistic::Sum => "Sum"@,
        Statistic::Maximum => "Maximum"@,
        Statistic::Average => "Average"@,
        Statistic::Minimum => "Minimum"@,
    }
}

/// The statistic that a name stands for, if it stands for one.
pub open spec fn statistic_named(name: Seq<char>) -> Option<Statistic> {
    if name == "SampleCount"@ {
        Some(Statistic::SampleCount)
    } else if name == "Sum"@ {
        Some(Statistic::Sum)
    } else if name == "Maximum"@ {
        Some(Statistic::Maximum)
    } else if name == "Average"@ {
        Some(Statistic::Average)
    } else if name == "Minimum"@ {
        Some(Statistic::Minimum)
    } else {
        None
    }
}

/// Whether a string holds exactly the given text.
pub fn same_text(a: &String, b: &str) -> (r: bool)
    ensures
        r == (a@ == b@),
{
    let other = String::from_str(b);
    a.eq(&other)
}

impl Statistic {
    /// Reads a statistic by its name: one of the five names gives the
    /// statistic, every other string is refused.
    pub fn parse(name: &String) -> (r: Result<Statistic, RequestError>)
        ensures
            r == match statistic_named(name@) {
                Some(s) => Ok::<Statistic, RequestError>(s),
                None => Err::<Statistic, RequestError>(RequestError::UnsupportedStatistic),
            },
    {
        if same_text(name, "SampleCount") {
            Ok(Statistic::SampleCount)
        } else if same_text(name, "Sum") {
            Ok(Statistic::Sum)
        } else if same_text(name, "Maximum") {
            Ok(Statistic::Maximum)
        } else if same_text(name, "Average") {
            Ok(Statistic::Average)
        } else if same_text(name, "Minimum") {
            Ok(Statistic::Minimum)
        } else {
            Err(RequestError::UnsupportedStatistic)
        }
    }

    /// The name of the statistic.
    pub fn name(self) -> (r: String)
        ensures
            r@ == statistic_name(self),
    {
        match self {
            Statistic::SampleCount => String::from_str("SampleCount"),
            Statistic::Sum => String::from_str("Sum"),
            Statistic::Maximum => String::from_str("Maximum"),
            Statistic::Average => String::from_str("Average"),
            Statistic::Minimum => String::from_str("Minimum"),
        }
    }
}

/// Reading the name of a statistic gives that statistic back.
pub proof fn lemma_statistic_name_round_trip(s: Statistic)
    ensures
        statistic_named(statistic_name(s)) == Some(s),
{
    reveal_strlit("SampleCount");
    reveal_strlit("Sum");
    reveal_strlit("Maximum");
    reveal_strlit("Average");
    reveal_strlit("Minimum");
    assert("SampleCount"@.len() == 11 && "Sum"@.len() == 3);
    assert("Maximum"@.len() == 7 && "Average"@.len() == 7 && "Minimum"@.len() == 7);
    assert("Maximum"@[0] == 'M' && "Average"@[0] == 'A' && "Minimum"@[0] == 'M');
    assert("Maximum"@[1] == 'a' && "Minimum"@[1] == 'i');
}

} // verus!
