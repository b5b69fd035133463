use vstd::prelude::*;
use crate::db::Db;
use crate::errors::ServerError;
use crate::game_state::MatchLabel;

verus! {

/// The match row stored under `label`, if there is one.
pub fn get_match(db: &Db, label: &String) -> (r: Option<MatchLabel>)
    ensures
        r is Some <==> db@.has_match(label@),
        r matches Some(m) ==> m.label@ == label@,
{
    if db.has_match(label) {
        Some(MatchLabel { label: label.clone() })
    } else {
        None
    }
}

/// Inserts a match row. The label is the table's primary key: a label that
/// is already stored is refused and the store is left as it was.
pub fn insert_match(db: &mut Db, label: String) -> (r: Result<(), ServerError>)
    ensures
        old(db)@.wf() ==> final(db)@.wf(),
        r is Ok <==> !old(db)@.has_match(label@),
        r is Ok ==> final(db)@ == old(db)@.with_match(label@),
        r matches Err(e) ==> e == ServerError::Persistence && final(db)@ == old(db)@,
{
    if db.has_match(&label) {
        return Err(ServerError::Persistence);
    }
    db.push_match(label);
    proof {
        if old(db)@.wf() {
            assert forall|cat, i: int| 0 <= i < db@.table(cat).len() implies db@.refers(
                #[trigger] db@.table(cat)[i],
            ) by {
                assert(old(db)@.refers(old(db)@.table(cat)[i]));
                assert(old(db)@.matches.contains(db@.table(cat)[i].0));
                let j = choose|j: int|
                    0 <= j < old(db)@.matches.len() && old(db)@.matches[j] == db@.table(cat)[i].0;
                assert(db@.matches[j] == db@.table(cat)[i].0);
            }
        }
    }
    Ok(())
}

} // verus!
