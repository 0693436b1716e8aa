use vstd::prelude::*;

verus! {

/// One typed value in a backend parameter set.
#[derive(Debug, Clone, PartialEq)]
pub enum ObsValue {
    Text(String),
    Number(i64),
    Flag(bool),
}

/// The mathematical value of an `ObsValue`.
pub ghost enum ObsValueV {
    Text(Seq<char>),
    Number(i64),
    Flag(bool),
}

impl View for ObsValue {
    type V = ObsValueV;

    open spec fn view(&self) -> ObsValueV {
        match self {
            ObsValue::Text(s) => ObsValueV::Text(s@),
            ObsValue::Number(n) => ObsValueV::Number(*n),
            ObsValue::Flag(b) => ObsValueV::Flag(*b),
        }
    }
}

/// One named parameter handed to the backend.
#[derive(Debug, Clone, PartialEq)]
pub struct ObsEntry {
    pub key: String,
    pub value: ObsValue,
}

pub ghost struct ObsEntryV {
    pub key: Seq<char>,
    pub value: ObsValueV,
}

impl View for ObsEntry {
    type V = ObsEntryV;

    open spec fn view(&self) -> ObsEntryV {
        ObsEntryV { key: self.key@, value: self.value@ }
    }
}

/// The parameters for one backend resource, as the sequence of typed
/// key/value pairs handed over; where a key repeats, the backend keeps the
/// later value.
#[derive(Debug, Clone)]
pub struct ObsData {
    pub entries: Vec<ObsEntry>,
}

impl View for ObsData {
    type V = Seq<ObsEntryV>;

    open spec fn view(&self) -> Seq<ObsEntryV> {
        self.entries@.map_values(|e: ObsEntry| e@)
    }
}

/// Shorthand for the entry a `set_string` call appends.
pub open spec fn text_entry(key: Seq<char>, value: Seq<char>) -> ObsEntryV {
    ObsEntryV { key, value: ObsValueV::Text(value) }
}

/// Shorthand for the entry a `set_int` call appends.
pub open spec fn number_entry(key: Seq<char>, value: i64) -> ObsEntryV {
    ObsEntryV { key, value: ObsValueV::Number(value) }
}

/// Shorthand for the entry a `set_bool` call appends.
pub open spec fn flag_entry(key: Seq<char>, value: bool) -> ObsEntryV {
    ObsEntryV { key, value: ObsValueV::Flag(value) }
}

impl ObsData {
    pub fn new() -> (r: ObsData)
        ensures
            r@ == Seq::<ObsEntryV>::empty(),
    {
        let r = ObsData { entries: Vec::new() };
        proof {
            assert(r@ =~= Seq::<ObsEntryV>::empty());
        }
        r
    }

    pub fn set_string(&mut self, name: &str, value: &str)
        ensures
            final(self)@ == old(self)@.push(text_entry(name@, value@)),
    {
        self.entries.push(ObsEntry { key: name.to_owned(), value: ObsValue::Text(value.to_owned()) });
        proof {
            assert(self@ =~= old(self)@.push(text_entry(name@, value@)));
        }
    }

    pub fn set_int(&mut self, name: &str, value: i64)
        ensures
            final(self)@ == old(self)@.push(number_entry(name@, value)),
    {
        self.entries.push(ObsEntry { key: name.to_owned(), value: ObsValue::Number(value) });
        proof {
            assert(self@ =~= old(self)@.push(number_entry(name@, value)));
        }
    }

    pub fn set_bool(&mut self, name: &str, value: bool)
        ensures
            final(self)@ == old(self)@.push(flag_entry(name@, value)),
    {
        self.entries.push(ObsEntry { key: name.to_owned(), value: ObsValue::Flag(value) });
        proof {
            assert(self@ =~= old(self)@.push(flag_entry(name@, value)));
        }
    }
}

} // verus!
