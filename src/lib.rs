use vstd::prelude::*;

pub mod arith;
pub mod diff;
pub mod laws;
pub mod session;

pub use arith::{add, random_number, subtract};
pub use diff::diff_lines;
pub use session::{
    decode_entries, encode_entries, kind_tag, parse_kind_tag, Mode, RegEntry, RegError, RegTest,
    RegType, StoredEntry,
};

verus! {

} // verus!
