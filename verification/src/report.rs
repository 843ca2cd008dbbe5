//! The report of a decode: names and values in the order of the payload.

use vstd::prelude::*;
use vstd::string::StringExecFns;

verus! {

/// One entry of a report.
#[derive(Debug, PartialEq, Eq)]
pub enum Record {
    /// The name of the packet.
    Id(String),
    /// A line of its own: a heading or a remark.
    Comment(String),
    /// A name and the text of its value.
    Param(String, String),
}

/// The mathematical content of a [`Record`].
pub enum Line {
    Id(Seq<char>),
    Comment(Seq<char>),
    Param(Seq<char>, Seq<char>),
}

impl View for Record {
    type V = Line;

    open spec fn view(&self) -> Line {
        match self {
            Record::Id(name) => Line::Id(name@),
            Record::Comment(text) => Line::Comment(text@),
            Record::Param(name, value) => Line::Param(name@, value@),
        }
    }
}

/// What a decode has produced so far, in order.
#[derive(Debug)]
pub struct Report {
    pub records: Vec<Record>,
}

impl View for Report {
    type V = Seq<Line>;

    open spec fn view(&self) -> Seq<Line> {
        self.records@.map_values(|r: Record| r@)
    }
}

impl Report {
    /// The empty report.
    pub fn new() -> (r: Report)
        ensures
            r@ == Seq::<Line>::empty(),
    {
        let r = Report { records: Vec::new() };
        assert(r@ =~= Seq::<Line>::empty());
        r
    }

    fn push(&mut self, record: Record)
        ensures
            final(self)@ == old(self)@.push(record@),
    {
        self.records.push(record);
        assert(self@ =~= old(self)@.push(record@));
    }

    /// Adds the name of the packet.
    pub fn print_id(&mut self, name: &str)
        ensures
            final(self)@ == old(self)@.push(Line::Id(name@)),
    {
        self.push(Record::Id(String::from_str(name)));
    }

    /// Adds a line of its own.
    pub fn print_comment(&mut self, s: &str)
        ensures
            final(self)@ == old(self)@.push(Line::Comment(s@)),
    {
        self.push(Record::Comment(String::from_str(s)));
    }

    /// Adds a name and the text of its value.
    pub fn print_param(&mut self, name: &str, val: &str)
        ensures
            final(self)@ == old(self)@.push(Line::Param(name@, val@)),
    {
        self.push(Record::Param(String::from_str(name), String::from_str(val)));
    }
}

} // verus!
