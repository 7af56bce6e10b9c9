//! Events of the server itself.

use crate::encodes::{host_text, read_text, MAX_TEXT_BYTES};
use crate::utils::Float32;
use vstd::prelude::*;
use vstd::slice::slice_to_vec;
use vstd::std_specs::convert::FromSpecImpl;

verus! {

/// The server has started.
#[derive(Debug, Clone)]
pub struct ServerInitialiseEvent;

/// The server is about to stop.
#[derive(Debug, Clone)]
pub struct ServerShutdownEvent;

/// One frame of the simulation has passed.
#[derive(Debug, Clone)]
pub struct ServerFrameEvent {
    pub elapsed_time: Float32,
}

impl From<Float32> for ServerFrameEvent {
    fn from(value: Float32) -> (event: Self) {
        Self { elapsed_time: value }
    }
}

impl FromSpecImpl<Float32> for ServerFrameEvent {
    open spec fn obeys_from_spec() -> bool {
        true
    }

    open spec fn from_spec(value: Float32) -> Self {
        Self { elapsed_time: value }
    }
}

/// The host's report on where its time went: a list of descriptions and a
/// list of times.
#[derive(Debug, Clone)]
pub struct ServerPerformanceReportEvent {
    pub entry_count: usize,
    pub descriptions: Vec<String>,
    pub times: Vec<u64>,
}

/// Whether each description that is present is short enough to decode.
pub open spec fn descriptions_fit(descriptions: Seq<Option<Vec<u8>>>) -> bool {
    forall|i: int|
        0 <= i < descriptions.len() ==> (#[trigger] descriptions[i] matches Some(bytes)
            ==> bytes@.len() <= MAX_TEXT_BYTES)
}

/// The texts of the descriptions that are present, in their order; an absent
/// one leaves no trace.
pub open spec fn present_texts(descriptions: Seq<Option<Vec<u8>>>) -> Seq<Seq<char>>
    decreases descriptions.len(),
{
    if descriptions.len() == 0 {
        Seq::empty()
    } else {
        let before = present_texts(descriptions.drop_last());
        match descriptions.last() {
            Some(bytes) => before.push(host_text(bytes@)),
            None => before,
        }
    }
}

impl ServerPerformanceReportEvent {
    /// Reads the count and the two arrays of the callback. The count is kept
    /// as the host gave it; with nothing in the arrays both lists are empty.
    pub fn from(value: (usize, &[Option<Vec<u8>>], &[u64])) -> (event: Self)
        requires
            descriptions_fit(value.1@),
        ensures
            event.entry_count == value.0,
            event.descriptions.deep_view() == present_texts(value.1@),
            event.times@ == value.2@,
    {
        let descriptions = value.1;
        let mut texts: Vec<String> = Vec::new();
        let mut i: usize = 0;
        proof {
            assert(descriptions@.take(0) =~= Seq::empty());
            assert(texts.deep_view() =~= present_texts(descriptions@.take(0)));
        }
        while i < descriptions.len()
            invariant
                i <= descriptions.len(),
                descriptions_fit(descriptions@),
                texts.deep_view() == present_texts(descriptions@.take(i as int)),
            decreases descriptions.len() - i,
        {
            let ghost before = texts.deep_view();
            proof {
                assert(descriptions@.take(i + 1).drop_last() == descriptions@.take(i as int));
                assert(descriptions@.take(i + 1).last() == descriptions@[i as int]);
            }
            match &descriptions[i] {
                Some(bytes) => {
                    let text = read_text(bytes.as_slice());
                    texts.push(text);
                    proof {
                        assert(texts.deep_view() =~= before.push(host_text(bytes@)));
                    }
                },
                None => {},
            }
            i = i + 1;
        }
        proof {
            assert(descriptions@.take(descriptions@.len() as int) == descriptions@);
        }
        Self { entry_count: value.0, descriptions: texts, times: slice_to_vec(value.2) }
    }
}

} // verus!
