//! What every adapter shares: the change actions and the resolution of a
//! caller's id-or-domain against a listing.
use crate::record::{display_records_view, DisplayRecord, DisplayRecordView, RecordView};
use crate::text::str_eq;
use vstd::prelude::*;

verus! {

/// The change actions of the provider contract.
#[derive(Debug, Clone, Copy, PartialEq, Eq, Structural)]
pub enum ChangeAction {
    Create,
    Delete,
    Upsert,
}

/// Pages concatenated in order.
pub open spec fn concat_pages(pages: Seq<Seq<RecordView>>) -> Seq<RecordView>
    decreases pages.len(),
{
    if pages.len() == 0 {
        seq![]
    } else {
        concat_pages(pages.drop_last()) + pages.last()
    }
}

/// A display record answers to its opaque id and to its literal domain.
pub open spec fn answers_to(d: DisplayRecordView, key: Seq<char>) -> bool {
    d.id == key || d.domain == key
}

/// Some listed record answers to `key`.
pub open spec fn any_answers_to(ds: Seq<DisplayRecordView>, key: Seq<char>) -> bool {
    exists|i: int| 0 <= i < ds.len() && answers_to(#[trigger] ds[i], key)
}

/// `i` is the position of the first listed record that answers to `key`.
pub open spec fn is_first_answer(ds: Seq<DisplayRecordView>, key: Seq<char>, i: int) -> bool {
    &&& 0 <= i < ds.len()
    &&& answers_to(ds[i], key)
    &&& forall|j: int| 0 <= j < i ==> !answers_to(#[trigger] ds[j], key)
}

/// The position of the first listed record that answers to `key`.
pub fn find_record(records: &Vec<DisplayRecord>, key: &str) -> (r: Option<usize>)
    ensures
        r is None <==> !any_answers_to(display_records_view(records@), key@),
        r matches Some(i) ==> is_first_answer(display_records_view(records@), key@, i as int),
{
    let ghost ds = display_records_view(records@);
    let mut i: usize = 0;
    while i < records.len()
        invariant
            i <= records@.len(),
            ds == display_records_view(records@),
            forall|j: int| 0 <= j < i ==> !answers_to(#[trigger] ds[j], key@),
        decreases records@.len() - i,
    {
        let d = &records[i];
        if str_eq(d.id.as_str(), key) || str_eq(d.domain.as_str(), key) {
            assert(ds[i as int] == d@);
            return Some(i);
        }
        assert(ds[i as int] == d@);
        i = i + 1;
    }
    assert forall|j: int| 0 <= j < ds.len() implies !answers_to(#[trigger] ds[j], key@) by {}
    None
}

} // verus!
