use vstd::prelude::*;
use crate::kernel::{Parcel, ParcelView};
use crate::table::Table;
use crate::utility::text_map;
use crate::json::table_json_text;

verus! {

/// The access record of a DID's data file, as the chain keeps it.
#[derive(Debug)]
pub struct DataRecord {
    /// Whether the app may still read the data (`None` when the record lacks a boolean).
    pub can_access: Option<bool>,
    /// Where the data file is (`None` when the record lacks a string).
    pub uri: Option<String>,
}

pub struct DataRecordView {
    pub can_access: Option<bool>,
    pub uri: Option<Seq<char>>,
}

impl View for DataRecord {
    type V = DataRecordView;

    open spec fn view(&self) -> DataRecordView {
        DataRecordView {
            can_access: self.can_access,
            uri: match &self.uri {
                Some(u) => Some(u@),
                None => None,
            },
        }
    }
}

/// The view of a table of access records.
pub open spec fn record_map(t: &Table<DataRecord>) -> Map<Seq<char>, DataRecordView> {
    t@.map_values(|r: DataRecord| r@)
}

/// A file that the caller is asked to read and hand back.
#[derive(Debug)]
pub enum Fetch {
    /// A JSON object whose values are strings, as `Loaded::Strings`.
    Strings(String),
    /// A JSON object with any values, as `Loaded::Values`: each value by its compact JSON text.
    Values(String),
    /// A JSON object of access records, as `Loaded::Records`.
    Records(String),
    /// The whole text of a file, as `Loaded::Text`.
    Text(String),
}

pub enum FetchView {
    Strings(Seq<char>),
    Values(Seq<char>),
    Records(Seq<char>),
    Text(Seq<char>),
}

impl View for Fetch {
    type V = FetchView;

    open spec fn view(&self) -> FetchView {
        match self {
            Fetch::Strings(p) => FetchView::Strings(p@),
            Fetch::Values(p) => FetchView::Values(p@),
            Fetch::Records(p) => FetchView::Records(p@),
            Fetch::Text(p) => FetchView::Text(p@),
        }
    }
}

/// A change to the files or a message that the caller is asked to carry out.
#[derive(Debug)]
pub enum Effect {
    /// Replace the file with the table, its values written as JSON strings:
    /// the file's text is `json::table_json` of the table.
    WriteStrings(String, Table<String>),
    /// Replace the file with the table, its values being JSON texts.
    WriteValues(String, Table<String>),
    /// Replace the text of a file that exists.
    ReplaceFile(String, String),
    /// Create a file that must not exist yet, with the given text.
    CreateFile(String, String),
    /// Create or replace a file with the given text.
    WriteFile(String, String),
    /// Rename a file.
    Rename(String, String),
    /// Tell the chain that a data file was written: its hash key and its path.
    NotifyChain(String, String),
}

pub enum EffectView {
    WriteStrings(Seq<char>, Map<Seq<char>, Seq<char>>, Seq<char>),
    WriteValues(Seq<char>, Map<Seq<char>, Seq<char>>),
    ReplaceFile(Seq<char>, Seq<char>),
    CreateFile(Seq<char>, Seq<char>),
    WriteFile(Seq<char>, Seq<char>),
    Rename(Seq<char>, Seq<char>),
    NotifyChain(Seq<char>, Seq<char>),
}

impl View for Effect {
    type V = EffectView;

    open spec fn view(&self) -> EffectView {
        match self {
            Effect::WriteStrings(p, t) => EffectView::WriteStrings(p@, text_map(t), table_json_text(t)),
            Effect::WriteValues(p, t) => EffectView::WriteValues(p@, text_map(t)),
            Effect::ReplaceFile(p, c) => EffectView::ReplaceFile(p@, c@),
            Effect::CreateFile(p, c) => EffectView::CreateFile(p@, c@),
            Effect::WriteFile(p, c) => EffectView::WriteFile(p@, c@),
            Effect::Rename(a, b) => EffectView::Rename(a@, b@),
            Effect::NotifyChain(a, b) => EffectView::NotifyChain(a@, b@),
        }
    }
}

/// What comes after the effects of a step.
#[derive(Debug)]
pub enum Next {
    /// Read this and hand it to the next step.
    Fetch(Fetch),
    /// The request is done; this is its answer.
    Reply(Parcel),
    /// The request cannot go on; the actor fails with this message.
    Fail(String),
}

pub enum NextView {
    Fetch(FetchView),
    Reply(ParcelView),
    Fail,
}

impl View for Next {
    type V = NextView;

    open spec fn view(&self) -> NextView {
        match self {
            Next::Fetch(f) => NextView::Fetch(f@),
            Next::Reply(p) => NextView::Reply(p@),
            Next::Fail(_) => NextView::Fail,
        }
    }
}

/// One step of a request: effects to carry out in order, then what comes next.
#[derive(Debug)]
pub struct Step {
    pub effects: Vec<Effect>,
    pub next: Next,
}

pub struct StepView {
    pub effects: Seq<EffectView>,
    pub next: NextView,
}

impl View for Step {
    type V = StepView;

    open spec fn view(&self) -> StepView {
        StepView { effects: self.effects@.map_values(|e: Effect| e@), next: self.next@ }
    }
}

/// What the caller hands to a step: nothing at the start, else what it fetched.
#[derive(Debug)]
pub enum Loaded {
    Nothing,
    Strings(Table<String>),
    Values(Table<String>),
    Records(Table<DataRecord>),
    Text(String),
}

pub enum LoadedView {
    Nothing,
    Strings(Map<Seq<char>, Seq<char>>),
    Values(Map<Seq<char>, Seq<char>>),
    Records(Map<Seq<char>, DataRecordView>),
    Text(Seq<char>),
}

impl View for Loaded {
    type V = LoadedView;

    open spec fn view(&self) -> LoadedView {
        match self {
            Loaded::Nothing => LoadedView::Nothing,
            Loaded::Strings(t) => LoadedView::Strings(text_map(t)),
            Loaded::Values(t) => LoadedView::Values(text_map(t)),
            Loaded::Records(t) => LoadedView::Records(record_map(t)),
            Loaded::Text(s) => LoadedView::Text(s@),
        }
    }
}

/// A step with no effects.
pub open spec fn only(next: NextView) -> StepView {
    StepView { effects: Seq::empty(), next }
}

pub fn step_only(next: Next) -> (s: Step)
    ensures
        s@ == only(next@),
{
    let s = Step { effects: Vec::new(), next };
    assert(s@.effects =~= Seq::<EffectView>::empty());
    s
}

/// The step that fails with a message.
pub fn fail_step(msg: &str) -> (s: Step)
    ensures
        s@ == only(NextView::Fail),
{
    step_only(Next::Fail(msg.to_owned()))
}

} // verus!
