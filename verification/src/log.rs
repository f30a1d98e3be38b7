use vstd::prelude::*;
use vstd::string::*;
use crate::metrics_obj::{MetricOut, MetricOutView};
use crate::text::strings_text;

verus! {

/// What the caller is to do for the sink.
#[derive(Debug)]
pub enum SinkAction {
    /// Print the line on standard output.
    Print(String),
    /// Append the row to the CSV file.
    Row(Vec<String>),
    /// Flush the CSV file and close it.
    Flush,
    /// Nothing is to be done.
    Nothing,
}

/// The sink of one run: records go to standard output as lines, or, once
/// CSV is enabled, to a CSV file as rows, until the sink is closed.
#[derive(Debug)]
pub struct Log {
    pub csv: bool,
    pub closed: bool,
}

/// The header of the CSV file: the names of a record's fields.
pub open spec fn header_text() -> Seq<Seq<char>> {
    seq![
        "name"@,
        "dimension"@,
        "timestamp"@,
        "extended_stat"@,
        "extended_stat_value"@,
        "stat"@,
        "stat_value"@,
    ]
}

/// The row of a record: its fields in the order of the header.
pub open spec fn row_text(out: MetricOutView) -> Seq<Seq<char>> {
    seq![
        out.name,
        out.dimension,
        out.timestamp,
        out.extended_stat,
        out.extended_stat_value,
        out.stat,
        out.stat_value,
    ]
}

/// The fields from `from` on, each but the first with `", "` before it.
pub open spec fn joined_from(fields: Seq<Seq<char>>, from: int) -> Seq<char>
    decreases fields.len() - from,
{
    if from < 0 || from >= fields.len() {
        Seq::empty()
    } else if from == 0 {
        fields[0] + joined_from(fields, 1)
    } else {
        ", "@ + fields[from] + joined_from(fields, from + 1)
    }
}

/// The line of a record on standard output: its fields, in the order of the
/// header, with `", "` between them.
pub open spec fn line_text(out: MetricOutView) -> Seq<char> {
    joined_from(row_text(out), 0)
}

/// Whether the action appends a row with the given text.
pub open spec fn is_row(action: SinkAction, text: Seq<Seq<char>>) -> bool {
    action matches SinkAction::Row(fields) && strings_text(fields@) == text
}

/// Whether the action prints a line with the given text.
pub open spec fn is_line(action: SinkAction, text: Seq<char>) -> bool {
    action matches SinkAction::Print(line) && line@ == text
}

/// The fields of the header.
pub fn header_row() -> (fields: Vec<String>)
    ensures
        strings_text(fields@) == header_text(),
{
    let mut fields: Vec<String> = Vec::new();
    fields.push(String::from_str("name"));
    fields.push(String::from_str("dimension"));
    fields.push(String::from_str("timestamp"));
    fields.push(String::from_str("extended_stat"));
    fields.push(String::from_str("extended_stat_value"));
    fields.push(String::from_str("stat"));
    fields.push(String::from_str("stat_value"));
    proof {
        assert(strings_text(fields@) =~= header_text());
    }
    fields
}

/// The fields of a record, in the order of the header.
pub fn record_row(out: &MetricOut) -> (fields: Vec<String>)
    ensures
        strings_text(fields@) == row_text(out@),
{
    let mut fields: Vec<String> = Vec::new();
    fields.push(out.name.clone());
    fields.push(out.dimension.clone());
    fields.push(out.timestamp.clone());
    fields.push(out.extended_stat.clone());
    fields.push(out.extended_stat_value.clone());
    fields.push(out.stat.clone());
    fields.push(out.stat_value.clone());
    proof {
        assert(strings_text(fields@) =~= row_text(out@));
    }
    fields
}

/// The line of a record on standard output.
pub fn record_line(out: &MetricOut) -> (text: String)
    ensures
        text@ == line_text(out@),
{
    let fields = record_row(out);
    let ghost all = strings_text(fields@);
    let mut text = String::new();
    let mut i: usize = fields.len();
    while i > 0
        invariant
            0 <= i <= fields.len(),
            all == strings_text(fields@),
            text@ == joined_from(all, i as int),
        decreases i,
    {
        i = i - 1;
        let mut head = if i == 0 {
            String::new()
        } else {
            String::from_str(", ")
        };
        head.append(fields[i].as_str());
        head.append(text.as_str());
        proof {
            assert(all[i as int] == fields@[i as int]@);
            assert(head@ =~= joined_from(all, i as int));
        }
        text = head;
    }
    text
}

impl Log {
    /// A sink that prints lines.
    pub fn new() -> (log: Log)
        ensures
            !log.csv,
            !log.closed,
    {
        Log { csv: false, closed: false }
    }

    /// Turns the sink to CSV: the file is to start anew with the header
    /// row. A sink that is already on CSV, or closed, stays as it is and
    /// asks for nothing, so that the file is opened once.
    pub fn enable_csv(&mut self) -> (action: SinkAction)
        ensures
            final(self).closed == old(self).closed,
            final(self).csv == (old(self).csv || !old(self).closed),
            !old(self).csv && !old(self).closed ==> is_row(action, header_text()),
            old(self).csv || old(self).closed ==> action is Nothing,
    {
        if self.csv || self.closed {
            SinkAction::Nothing
        } else {
            self.csv = true;
            SinkAction::Row(header_row())
        }
    }

    /// Hands one record to the sink: its row for the CSV file, or its line
    /// for standard output. A closed sink takes no record. The sink stays as
    /// it is.
    pub fn write(&mut self, metric_out: &MetricOut) -> (action: SinkAction)
        ensures
            *final(self) == *old(self),
            old(self).closed ==> action is Nothing,
            !old(self).closed && old(self).csv ==> is_row(action, row_text(metric_out@)),
            !old(self).closed && !old(self).csv ==> is_line(action, line_text(metric_out@)),
    {
        if self.closed {
            SinkAction::Nothing
        } else if self.csv {
            SinkAction::Row(record_row(metric_out))
        } else {
            SinkAction::Print(record_line(metric_out))
        }
    }

    /// Ends the run. The first close of a CSV sink asks for the one flush of
    /// the file; standard output needs nothing, and neither does a sink that
    /// is closed already.
    pub fn close(&mut self) -> (action: SinkAction)
        ensures
            final(self).csv == old(self).csv,
            final(self).closed,
            old(self).csv && !old(self).closed ==> action is Flush,
            !old(self).csv || old(self).closed ==> action is Nothing,
    {
        let first = !self.closed;
        self.closed = true;
        if self.csv && first {
            SinkAction::Flush
        } else {
            SinkAction::Nothing
        }
    }

    /// The whole of a CSV run over `records`: the header row, one row per
    /// record in order, and one flush at the end. With N records that is
    /// N + 1 rows.
    pub fn dump(records: &Vec<MetricOut>) -> (actions: Vec<SinkAction>)
        requires
            records.len() + 2 <= usize::MAX,
        ensures
            actions.len() == records.len() + 2,
            is_row(actions[0], header_text()),
            forall|k: int|
                1 <= k <= records.len() ==> is_row(#[trigger] actions[k], row_text(records[k - 1]@)),
            actions[records.len() + 1] is Flush,
    {
        let mut log = Log::new();
        let mut actions: Vec<SinkAction> = Vec::new();
        actions.push(log.enable_csv());
        let mut i: usize = 0;
        while i < records.len()
            invariant
                0 <= i <= records.len(),
                log.csv,
                !log.closed,
                actions.len() == i + 1,
                is_row(actions[0], header_text()),
                forall|k: int|
                    1 <= k <= i ==> is_row(#[trigger] actions[k], row_text(records[k - 1]@)),
            decreases records.len() - i,
        {
            actions.push(log.write(&records[i]));
            i = i + 1;
        }
        actions.push(log.close());
        actions
    }
}

} // verus!
