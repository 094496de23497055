//! Watch target records as they are loaded from configuration.

use vstd::prelude::*;

verus! {

/// One watch target as written in a targets file: the file to tail, the
/// string to look for, and the optional query-string fragment and event name.
#[derive(Debug)]
pub struct Config {
    pub file: String,
    pub string: String,
    pub options: Option<String>,
    pub name: Option<String>,
}

impl Config {
    /// The event name of this target as a sequence of characters: `name`
    /// where it is given, the file path otherwise.
    pub open spec fn spec_event_name(&self) -> Seq<char> {
        match self.name {
            Some(n) => n@,
            None => self.file@,
        }
    }

    /// The query-string fragment of this target: `options` where it is
    /// given, the empty string otherwise.
    pub open spec fn spec_query(&self) -> Seq<char> {
        match self.options {
            Some(o) => o@,
            None => Seq::<char>::empty(),
        }
    }

    /// The event name: `name`, defaulting to the file path.
    pub fn event_name(&self) -> (out: String)
        ensures
            out@ == self.spec_event_name(),
    {
        match &self.name {
            Some(n) => n.clone(),
            None => self.file.clone(),
        }
    }

    /// The query-string fragment: `options`, defaulting to the empty string.
    pub fn query(&self) -> (out: String)
        ensures
            out@ == self.spec_query(),
    {
        match &self.options {
            Some(o) => o.clone(),
            None => String::new(),
        }
    }
}

} // verus!
