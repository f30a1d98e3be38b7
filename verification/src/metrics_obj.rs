use vstd::prelude::*;

verus! {

/// The flags of one run as the command line gives them.
#[derive(Debug)]
pub struct MetricsObj {
    pub name: Option<String>,
    pub config_file: Option<String>,
    pub csv: Option<bool>,
    pub namespace: Option<String>,
    pub region: Option<String>,
    pub extended_stat: Option<String>,
    pub stat: Option<String>,
    pub dimensions: Option<Vec<String>>,
    pub period: Option<i32>,
    pub start_time: Option<String>,
}

/// One flat output record. Every field is a display string; a value that is
/// absent is the empty string.
#[derive(Debug)]
pub struct MetricOut {
    pub name: String,
    pub dimension: String,
    pub timestamp: String,
    pub extended_stat: String,
    pub extended_stat_value: String,
    pub stat: String,
    pub stat_value: String,
}

/// The text of an output record.
pub ghost struct MetricOutView {
    pub name: Seq<char>,
    pub dimension: Seq<char>,
    pub timestamp: Seq<char>,
    pub extended_stat: Seq<char>,
    pub extended_stat_value: Seq<char>,
    pub stat: Seq<char>,
    pub stat_value: Seq<char>,
}

impl View for MetricOut {
    type V = MetricOutView;

    open spec fn view(&self) -> MetricOutView {
        MetricOutView {
            name: self.name@,
            dimension: self.dimension@,
            timestamp: self.timestamp@,
            extended_stat: self.extended_stat@,
            extended_stat_value: self.extended_stat_value@,
            stat: self.stat@,
            stat_value: self.stat_value@,
        }
    }
}

/// The record whose fields are all empty.
pub open spec fn blank_record() -> MetricOutView {
    MetricOutView {
        name: Seq::empty(),
        dimension: Seq::empty(),
        timestamp: Seq::empty(),
        extended_stat: Seq::empty(),
        extended_stat_value: Seq::empty(),
        stat: Seq::empty(),
        stat_value: Seq::empty(),
    }
}

impl MetricOut {
    /// A record with every field empty, to be filled by the setters.
    pub fn builder() -> (out: MetricOut)
        ensures
            out@ == blank_record(),
    {
        MetricOut {
            name: String::new(),
            dimension: String::new(),
            timestamp: String::new(),
            extended_stat: String::new(),
            extended_stat_value: String::new(),
            stat: String::new(),
            stat_value: String::new(),
        }
    }

    /// Sets the metric's name and leaves the other fields as they are.
    pub fn name(&mut self, arg: String)
        ensures
            final(self)@ == (MetricOutView { name: arg@, ..old(self)@ }),
    {
        self.name = arg;
    }

    /// Sets the text of the timestamp and leaves the other fields as they are.
    pub fn timestamp(&mut self, arg: String)
        ensures
            final(self)@ == (MetricOutView { timestamp: arg@, ..old(self)@ }),
    {
        self.timestamp = arg;
    }

    /// Sets the dimension and leaves the other fields as they are.
    pub fn dimension(&mut self, arg: String)
        ensures
            final(self)@ == (MetricOutView { dimension: arg@, ..old(self)@ }),
    {
        self.dimension = arg;
    }

    /// Sets the name of the extended statistic and leaves the other fields as they are.
    pub fn extended_stat(&mut self, arg: String)
        ensures
            final(self)@ == (MetricOutView { extended_stat: arg@, ..old(self)@ }),
    {
        self.extended_stat = arg;
    }

    /// Sets the value of the extended statistic and leaves the other fields as they are.
    pub fn extended_stat_value(&mut self, arg: String)
        ensures
            final(self)@ == (MetricOutView { extended_stat_value: arg@, ..old(self)@ }),
    {
        self.extended_stat_value = arg;
    }

    /// Sets the value of the statistic and leaves the other fields as they are.
    pub fn stat_value(&mut self, arg: String)
        ensures
            final(self)@ == (MetricOutView { stat_value: arg@, ..old(self)@ }),
    {
        self.stat_value = arg;
    }

    /// Sets the name of the statistic and leaves the other fields as they are.
    pub fn stat(&mut self, arg: String)
        ensures
            final(self)@ == (MetricOutView { stat: arg@, ..old(self)@ }),
    {
        self.stat = arg;
    }
}

} // verus!
