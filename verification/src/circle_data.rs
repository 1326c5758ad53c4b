//! The stored record of a circle.
use vstd::prelude::*;
use vstd::std_specs::convert::FromSpecImpl;
use vstd::std_specs::convert::TryFromSpecImpl;
use crate::circle::{Circle, CircleView};
use crate::circle_id::CircleId;
use crate::error::{DecodeError, RepositoryError};
use crate::member::{member_views, Member, MemberView};
use crate::member_data::{
    lemma_member_record_round_trip,
    lemma_member_records_round_trip,
    member_of_record,
    member_record,
    member_records,
    members_of_records,
    record_views,
    MemberData,
    MemberDataView,
};

verus! {

/// What a circle record holds, as plain values.
pub struct CircleDataView {
    pub id: Seq<char>,
    pub name: Seq<char>,
    pub owner_id: Seq<char>,
    pub owner: MemberDataView,
    pub capacity: int,
    pub members: Seq<MemberDataView>,
}

/// A circle as it is stored: its own fields, the owner's identifier and
/// record, and the records of the additional members.
#[derive(Debug)]
pub struct CircleData {
    pub id: String,
    pub name: String,
    pub owner_id: String,
    pub owner: MemberData,
    pub capacity: i16,
    pub members: Vec<MemberData>,
}

impl View for CircleData {
    type V = CircleDataView;

    open spec fn view(&self) -> CircleDataView {
        CircleDataView {
            id: self.id@,
            name: self.name@,
            owner_id: self.owner_id@,
            owner: self.owner@,
            capacity: self.capacity as int,
            members: record_views(self.members@),
        }
    }
}

/// The record of a circle.
pub open spec fn circle_record(circle: CircleView) -> CircleDataView {
    CircleDataView {
        id: circle.id,
        name: circle.name,
        owner_id: circle.owner.id,
        owner: member_record(circle.owner),
        capacity: circle.capacity,
        members: member_records(circle.members),
    }
}

/// The circle that a record describes: the owner from the owner's record,
/// the additional members from theirs. The owner's record is read first; the
/// first record with a grade code that names no grade gives the error.
pub open spec fn circle_of_record(record: CircleDataView) -> Result<CircleView, DecodeError> {
    match member_of_record(record.owner) {
        Err(e) => Err(e),
        Ok(owner) => match members_of_records(record.members) {
            Err(e) => Err(e),
            Ok(members) => Ok(
                CircleView {
                    id: record.id,
                    name: record.name,
                    capacity: record.capacity,
                    owner,
                    members,
                },
            ),
        },
    }
}

/// Reading the record of a circle gives the circle back.
pub proof fn lemma_circle_record_round_trip(circle: CircleView)
    ensures
        circle_of_record(circle_record(circle)) == Ok::<CircleView, DecodeError>(circle),
{
    lemma_member_record_round_trip(circle.owner);
    lemma_member_records_round_trip(circle.members);
}

/// A copy of a list of member records, in the same order.
pub fn clone_records(records: &Vec<MemberData>) -> (copy: Vec<MemberData>)
    ensures
        copy@ == records@,
{
    let mut copy: Vec<MemberData> = Vec::new();
    let mut i: usize = 0;
    while i < records.len()
        invariant
            i <= records.len(),
            copy@ == records@.take(i as int),
        decreases records.len() - i,
    {
        copy.push(records[i].clone());
        assert(copy@ =~= records@.take(i + 1));
        i += 1;
    }
    assert(records@.take(records.len() as int) =~= records@);
    copy
}

/// The records of a list of members, in the same order.
pub fn records_of_members(members: &Vec<Member>) -> (records: Vec<MemberData>)
    ensures
        record_views(records@) == member_records(member_views(members@)),
{
    let mut records: Vec<MemberData> = Vec::new();
    let mut i: usize = 0;
    while i < members.len()
        invariant
            i <= members.len(),
            record_views(records@) == member_records(member_views(members@).take(i as int)),
        decreases members.len() - i,
    {
        let ghost before = records@;
        let record = MemberData::from(members[i].clone());
        records.push(record);
        assert(record_views(records@) =~= record_views(before).push(record@));
        assert(member_views(members@).take(i + 1) =~= member_views(members@).take(i as int).push(
            members[i as int]@,
        ));
        assert(record_views(records@) =~= member_records(member_views(members@).take(i + 1)));
        i += 1;
    }
    assert(member_views(members@).take(members.len() as int) =~= member_views(members@));
    records
}

/// The members that a list of records describes, in the same order; the
/// error of the first record with a grade code that names no grade.
pub fn members_of(records: &Vec<MemberData>) -> (members: Result<Vec<Member>, DecodeError>)
    ensures
        match members {
            Ok(ms) => members_of_records(record_views(records@)) == Ok::<
                Seq<MemberView>,
                DecodeError,
            >(member_views(ms@)),
            Err(e) => members_of_records(record_views(records@)) == Err::<
                Seq<MemberView>,
                DecodeError,
            >(e),
        },
{
    let ghost all = record_views(records@);
    let mut members: Vec<Member> = Vec::new();
    let mut i: usize = 0;
    assert(all.take(0) =~= Seq::empty());
    assert(member_views(members@) =~= Seq::empty());
    while i < records.len()
        invariant
            i <= records.len(),
            all == record_views(records@),
            members_of_records(all.take(i as int)) == Ok::<Seq<MemberView>, DecodeError>(
                member_views(members@),
            ),
        decreases records.len() - i,
    {
        proof {
            assert(all.take(i + 1).drop_last() =~= all.take(i as int));
            assert(all.take(i + 1).last() == records[i as int]@);
        }
        match Member::try_from(records[i].clone()) {
            Ok(member) => {
                let ghost before = members@;
                members.push(member);
                assert(member_views(members@) =~= member_views(before).push(member@));
            },
            Err(e) => {
                proof {
                    lemma_first_failure(all, i as int);
                }
                return Err(e);
            },
        }
        i += 1;
    }
    assert(all.take(records.len() as int) =~= all);
    Ok(members)
}

/// Once a front part of a sequence of records fails to read, the whole
/// sequence fails with the same error.
pub proof fn lemma_first_failure(records: Seq<MemberDataView>, i: int)
    requires
        0 <= i < records.len(),
        members_of_records(records.take(i + 1)) is Err,
    ensures
        members_of_records(records) == members_of_records(records.take(i + 1)),
    decreases records.len(),
{
    if i + 1 == records.len() {
        assert(records.take(i + 1) =~= records);
    } else {
        assert(records.drop_last().take(i + 1) =~= records.take(i + 1));
        lemma_first_failure(records.drop_last(), i);
    }
}

/// Whether some record of a sequence has the identifier `id`.
pub open spec fn has_record(records: Seq<MemberDataView>, id: Seq<char>) -> bool {
    exists|i: int| 0 <= i < records.len() && (#[trigger] records[i]).id == id
}

/// The place of the first record with the identifier `id`.
pub open spec fn first_with_id(records: Seq<MemberDataView>, id: Seq<char>) -> int {
    choose|i: int|
        0 <= i < records.len() && (#[trigger] records[i]).id == id && forall|j: int|
            0 <= j < i ==> (#[trigger] records[j]).id != id
}

/// The records of a sequence but those with the identifier `id`, in order.
pub open spec fn records_without(records: Seq<MemberDataView>, id: Seq<char>) -> Seq<
    MemberDataView,
> {
    records.filter(|r: MemberDataView| r.id != id)
}

impl CircleData {
    /// The record of a circle from its stored rows: the row of the circle
    /// itself, given by its fields, and the rows of everyone in it. The
    /// owner is the first member row with the owner's identifier; the
    /// additional members are the rows with another identifier, in their
    /// order. Without a row for the owner there is no record.
    pub fn from_rows(
        id: String,
        name: String,
        owner_id: String,
        capacity: i16,
        rows: Vec<MemberData>,
    ) -> (record: Result<CircleData, RepositoryError>)
        ensures
            match record {
                Ok(r) => {
                    &&& has_record(record_views(rows@), owner_id@)
                    &&& r@ == (CircleDataView {
                        id: id@,
                        name: name@,
                        owner_id: owner_id@,
                        owner: record_views(rows@)[first_with_id(record_views(rows@), owner_id@)],
                        capacity: capacity as int,
                        members: records_without(record_views(rows@), owner_id@),
                    })
                },
                Err(e) => {
                    &&& !has_record(record_views(rows@), owner_id@)
                    &&& e matches RepositoryError::StorageError(reason)
                    &&& reason@ == "Owner not found"@
                },
            },
    {
        let ghost all = record_views(rows@);
        let ghost keep = |r: MemberDataView| r.id != owner_id@;
        let mut owner: Option<MemberData> = None;
        let mut members: Vec<MemberData> = Vec::new();
        let mut i: usize = 0;
        assert(all.take(0).filter(keep) =~= Seq::empty()) by {
            reveal(Seq::filter);
        }
        while i < rows.len()
            invariant
                i <= rows.len(),
                all == record_views(rows@),
                keep == |r: MemberDataView| r.id != owner_id@,
                record_views(members@) == all.take(i as int).filter(keep),
                match owner {
                    Some(o) => exists|k: int|
                        0 <= k < i && o@ == all[k] && (#[trigger] all[k]).id == owner_id@
                            && forall|j: int| 0 <= j < k ==> (#[trigger] all[j]).id != owner_id@,
                    None => forall|j: int| 0 <= j < i ==> (#[trigger] all[j]).id != owner_id@,
                },
            decreases rows.len() - i,
        {
            let row = &rows[i];
            proof {
                assert(all.take(i + 1) =~= all.take(i as int).push(row@));
                all.take(i as int).lemma_filter_push(row@, keep);
            }
            if row.id == owner_id {
                if owner.is_none() {
                    assert(all[i as int].id == owner_id@);
                    owner = Some(row.clone());
                }
            } else {
                let ghost before = members@;
                let copy = row.clone();
                members.push(copy);
                assert(record_views(members@) =~= record_views(before).push(copy@));
            }
            i += 1;
        }
        assert(all.take(rows.len() as int) =~= all);
        match owner {
            Some(owner) => {
                proof {
                    let k = choose|k: int|
                        0 <= k < all.len() && owner@ == all[k] && (#[trigger] all[k]).id
                            == owner_id@ && forall|j: int|
                            0 <= j < k ==> (#[trigger] all[j]).id != owner_id@;
                    let f = first_with_id(all, owner_id@);
                    assert(0 <= f < all.len() && all[f].id == owner_id@ && forall|j: int|
                        0 <= j < f ==> (#[trigger] all[j]).id != owner_id@);
                    if f < k {
                        assert(all[f].id != owner_id@);
                    } else if k < f {
                        assert(all[k].id != owner_id@);
                    }
                }
                Ok(CircleData { id, name, owner_id, owner, capacity, members })
            },
            None => Err(RepositoryError::StorageError("Owner not found".to_owned())),
        }
    }
}

impl Clone for CircleData {
    fn clone(&self) -> (copy: CircleData)
        ensures
            copy@ == self@,
    {
        CircleData {
            id: self.id.clone(),
            name: self.name.clone(),
            owner_id: self.owner_id.clone(),
            owner: self.owner.clone(),
            capacity: self.capacity,
            members: clone_records(&self.members),
        }
    }
}

impl From<Circle> for CircleData {
    fn from(circle: Circle) -> (record: CircleData)
        ensures
            record@ == circle_record(circle@),
    {
        let members = records_of_members(&circle.members);
        CircleData {
            id: String::from(circle.id),
            name: circle.name,
            owner_id: circle.owner.id.to_string(),
            owner: MemberData::from(circle.owner),
            capacity: circle.capacity,
            members,
        }
    }
}

impl FromSpecImpl<Circle> for CircleData {
    open spec fn obeys_from_spec() -> bool {
        false
    }

    open spec fn from_spec(circle: Circle) -> CircleData {
        arbitrary()
    }
}

impl TryFrom<CircleData> for Circle {
    type Error = DecodeError;

    fn try_from(data: CircleData) -> (circle: Result<Circle, DecodeError>)
        ensures
            match circle {
                Ok(c) => circle_of_record(data@) == Ok::<CircleView, DecodeError>(c@),
                Err(e) => circle_of_record(data@) == Err::<CircleView, DecodeError>(e),
            },
    {
        let id = CircleId::from_str(data.id.as_str()).unwrap();
        let owner = match Member::try_from(data.owner) {
            Ok(owner) => owner,
            Err(e) => { return Err(e); },
        };
        let members = match members_of(&data.members) {
            Ok(members) => members,
            Err(e) => { return Err(e); },
        };
        Ok(Circle::reconstruct(id, data.name, owner, data.capacity, members))
    }
}

impl TryFromSpecImpl<CircleData> for Circle {
    open spec fn obeys_try_from_spec() -> bool {
        false
    }

    open spec fn try_from_spec(data: CircleData) -> Result<Circle, DecodeError> {
        arbitrary()
    }
}

} // verus!
