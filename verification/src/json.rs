//! The shared trusted fact about JSON bodies: whether a text parses as a
//! JSON document at all. Parsing is deterministic, so the fact is a
//! function of the text alone; it is given a name here, and the trusted
//! readers of the two remote APIs state their results with it.

use vstd::prelude::*;

verus! {

/// Whether serde_json parses this text as one JSON document. Named, not
/// defined: the parser's acceptance is a function of the text alone, and
/// the trusted readers' contracts apply this name to say when they fail.
pub uninterp spec fn json_document(body: Seq<char>) -> bool;

} // verus!
