//! The circle aggregate: one owner, additional members and the rules on
//! who may own, join, stay and leave.
use vstd::prelude::*;
use crate::circle_id::CircleId;
use crate::error::{MembershipError, ValidationError};
use crate::grade::Grade;
use crate::member::{clone_members, member_views, Member, MemberView};
use crate::text::all_alphanumeric;

verus! {

/// The smallest capacity that a new circle may have.
pub const MIN_CAPACITY: i16 = 1;

/// What a circle is, as plain values.
pub struct CircleView {
    pub id: Seq<char>,
    pub name: Seq<char>,
    pub capacity: int,
    pub owner: MemberView,
    pub members: Seq<MemberView>,
}

/// The characters of a text that may be absent.
pub open spec fn text_of(text: Option<String>) -> Option<Seq<char>> {
    match text {
        Some(t) => Some(t@),
        None => None,
    }
}

/// The value of a number that may be absent.
pub open spec fn number_of(number: Option<i16>) -> Option<int> {
    match number {
        Some(n) => Some(n as int),
        None => None,
    }
}

/// Whether no two members of a sequence share an identifier.
pub open spec fn distinct_ids(members: Seq<MemberView>) -> bool {
    forall|i: int, j: int|
        0 <= i < j < members.len() ==> (#[trigger] members[i]).id != (#[trigger] members[j]).id
}

/// Whether some member of a sequence has the identifier `id`.
pub open spec fn has_id(members: Seq<MemberView>, id: Seq<char>) -> bool {
    exists|i: int| 0 <= i < members.len() && (#[trigger] members[i]).id == id
}

/// The members of a sequence but those with the identifier `id`, in order.
pub open spec fn without_id(members: Seq<MemberView>, id: Seq<char>) -> Seq<MemberView> {
    members.filter(|m: MemberView| m.id != id)
}

/// The members of a sequence but those of the fourth grade, in order.
pub open spec fn not_graduating(members: Seq<MemberView>) -> Seq<MemberView> {
    members.filter(|m: MemberView| m.grade != Grade::Fourth)
}

impl CircleView {
    /// The owner and the additional members together.
    pub open spec fn headcount(self) -> int {
        1 + self.members.len() as int
    }

    /// A circle is full once its headcount has reached its capacity.
    pub open spec fn is_full(self) -> bool {
        self.headcount() >= self.capacity
    }

    /// A circle can run with three people or more.
    pub open spec fn is_runnable(self) -> bool {
        self.headcount() >= 3
    }

    /// The owner first, then the additional members.
    pub open spec fn everyone(self) -> Seq<MemberView> {
        seq![self.owner] + self.members
    }

    /// The state that the rules keep: the capacity is at least the minimum,
    /// the headcount is within it, the additional members differ by
    /// identifier, and the owner is not among them.
    pub open spec fn well_formed(self) -> bool {
        &&& self.capacity >= MIN_CAPACITY
        &&& self.headcount() <= self.capacity
        &&& distinct_ids(self.members)
        &&& !has_id(self.members, self.owner.id)
    }

    /// This circle with the name and the capacity replaced where one is
    /// given.
    pub open spec fn revised(self, name: Option<Seq<char>>, capacity: Option<int>) -> CircleView {
        CircleView {
            name: match name {
                Some(n) => n,
                None => self.name,
            },
            capacity: match capacity {
                Some(c) => c,
                None => self.capacity,
            },
            ..self
        }
    }

    /// This circle with other additional members.
    pub open spec fn with_members(self, members: Seq<MemberView>) -> CircleView {
        CircleView { members, ..self }
    }
}

/// A circle: identity, name, capacity, the owner and the additional members.
#[derive(Debug, PartialEq, Eq)]
pub struct Circle {
    pub id: CircleId,
    pub name: String,
    pub capacity: i16,
    pub owner: Member,
    pub members: Vec<Member>,
}

impl View for Circle {
    type V = CircleView;

    open spec fn view(&self) -> CircleView {
        CircleView {
            id: self.id@,
            name: self.name@,
            capacity: self.capacity as int,
            owner: self.owner@,
            members: member_views(self.members@),
        }
    }
}

/// What creating a circle with this owner and capacity reports: the owner's
/// grade is looked at first, then the capacity.
pub open spec fn creation_verdict(owner: MemberView, capacity: int) -> Result<(), ValidationError> {
    if owner.grade != Grade::Third {
        Err(ValidationError::InvalidOwnerGrade)
    } else if capacity < MIN_CAPACITY {
        Err(ValidationError::InvalidCapacity)
    } else {
        Ok(())
    }
}

/// What admitting `member` to `circle` gives: fullness is looked at first,
/// then the member's grade; an admitted member comes last.
pub open spec fn admission(circle: CircleView, member: MemberView) -> Result<
    CircleView,
    MembershipError,
> {
    if circle.is_full() {
        Err(MembershipError::CircleFull)
    } else if member.grade == Grade::Fourth {
        Err(MembershipError::GraduatingMemberRejected)
    } else {
        Ok(circle.with_members(circle.members.push(member)))
    }
}

/// What removing the member with the identifier `id` from `circle` gives.
pub open spec fn removal(circle: CircleView, id: Seq<char>) -> Result<CircleView, MembershipError> {
    if circle.owner.id == id {
        Err(MembershipError::OwnerRemovalForbidden)
    } else if !has_id(circle.members, id) {
        Err(MembershipError::MemberNotFound)
    } else {
        Ok(circle.with_members(without_id(circle.members, id)))
    }
}

/// The views of a sequence of borrowed members, in the same order.
pub open spec fn borrowed_views(members: Seq<&Member>) -> Seq<MemberView> {
    members.map_values(|m: &Member| m@)
}

/// The views of a list with one more member are the views of the list with
/// that member's view at the end.
pub proof fn lemma_views_push(members: Seq<Member>, member: Member)
    ensures
        member_views(members.push(member)) == member_views(members).push(member@),
{
    assert(member_views(members.push(member)) =~= member_views(members).push(member@));
}

/// Filtering keeps identifiers apart, keeps out every identifier that was
/// not there, and never makes a sequence longer.
pub proof fn lemma_filter_keeps_distinct(
    members: Seq<MemberView>,
    pred: spec_fn(MemberView) -> bool,
)
    ensures
        distinct_ids(members) ==> distinct_ids(members.filter(pred)),
        forall|id: Seq<char>| !has_id(members, id) ==> !has_id(members.filter(pred), id),
        members.filter(pred).len() <= members.len(),
    decreases members.len(),
{
    reveal(Seq::filter);
    if members.len() > 0 {
        let rest = members.drop_last();
        let last = members.last();
        lemma_filter_keeps_distinct(rest, pred);
        let kept = rest.filter(pred);
        assert forall|id: Seq<char>| !has_id(members, id) implies !has_id(
            members.filter(pred),
            id,
        ) by {
            assert(!has_id(rest, id)) by {
                if has_id(rest, id) {
                    let i = choose|i: int| 0 <= i < rest.len() && (#[trigger] rest[i]).id == id;
                    assert(members[i].id == id);
                }
            }
            assert(members[members.len() - 1].id != id);
        }
        if distinct_ids(members) {
            assert(distinct_ids(rest)) by {
                assert forall|i: int, j: int| 0 <= i < j < rest.len() implies (#[trigger] rest[i]).id
                    != (#[trigger] rest[j]).id by {
                    assert(members[i].id != members[j].id);
                }
            }
            assert(!has_id(rest, last.id)) by {
                if has_id(rest, last.id) {
                    let i = choose|i: int|
                        0 <= i < rest.len() && (#[trigger] rest[i]).id == last.id;
                    assert(members[i].id != members[members.len() - 1].id);
                }
            }
            assert(!has_id(kept, last.id));
        }
    }
}

/// A member is in the sequence without `id` exactly when it is in the
/// sequence and has another identifier; so nobody with `id` is left.
pub proof fn lemma_without_id_removes(members: Seq<MemberView>, id: Seq<char>)
    ensures
        !has_id(without_id(members, id), id),
        has_id(members, id) ==> without_id(members, id).len() < members.len(),
        !has_id(members, id) ==> without_id(members, id) == members,
    decreases members.len(),
{
    reveal(Seq::filter);
    let pred = |m: MemberView| m.id != id;
    if members.len() > 0 {
        let rest = members.drop_last();
        let last = members.last();
        lemma_without_id_removes(rest, id);
        lemma_filter_keeps_distinct(rest, pred);
        if has_id(members, id) {
            let i = choose|i: int| 0 <= i < members.len() && (#[trigger] members[i]).id == id;
            if i < rest.len() {
                assert(rest[i].id == id);
            }
        } else {
            assert(!has_id(rest, id)) by {
                if has_id(rest, id) {
                    let i = choose|i: int| 0 <= i < rest.len() && (#[trigger] rest[i]).id == id;
                    assert(members[i].id == id);
                }
            }
            assert(members[members.len() - 1].id != id);
            assert(rest.push(last) =~= members);
        }
        let kept = without_id(members, id);
        if has_id(kept, id) {
            let k = choose|k: int| 0 <= k < kept.len() && (#[trigger] kept[k]).id == id;
            if last.id != id && k == kept.len() - 1 {
                assert(kept[k] == last);
            } else {
                assert(without_id(rest, id)[k].id == id);
            }
        }
    }
}

/// A member who was admitted to a circle that did not know the member's
/// identifier can be removed again, and the circle is then as it was.
pub proof fn lemma_add_then_remove(circle: CircleView, member: MemberView)
    requires
        admission(circle, member) is Ok,
        !has_id(circle.everyone(), member.id),
    ensures
        removal(admission(circle, member)->Ok_0, member.id) == Ok::<CircleView, MembershipError>(
            circle,
        ),
{
    let joined = circle.members.push(member);
    let keep = |m: MemberView| m.id != member.id;
    assert(circle.everyone()[0] == circle.owner);
    assert(!has_id(circle.members, member.id)) by {
        if has_id(circle.members, member.id) {
            let i = choose|i: int|
                0 <= i < circle.members.len() && (#[trigger] circle.members[i]).id == member.id;
            assert(circle.everyone()[i + 1].id == member.id);
        }
    }
    assert(joined[circle.members.len() as int].id == member.id);
    circle.members.lemma_filter_push(member, keep);
    lemma_without_id_removes(circle.members, member.id);
}

/// Graduating twice removes nobody that graduating once left.
pub proof fn lemma_graduate_twice(members: Seq<MemberView>)
    ensures
        not_graduating(not_graduating(members)) == not_graduating(members),
    decreases members.len(),
{
    let keep = |m: MemberView| m.grade != Grade::Fourth;
    reveal(Seq::filter);
    if members.len() > 0 {
        let rest = members.drop_last();
        lemma_graduate_twice(rest);
        if keep(members.last()) {
            rest.filter(keep).lemma_filter_push(members.last(), keep);
        }
    }
}

/// Graduation removes all the members of the fourth grade and only them:
/// who is left was there and is of another grade, and who was there and is
/// of another grade is left.
pub proof fn lemma_graduation_removes_all_and_only(members: Seq<MemberView>)
    ensures
        forall|m: MemberView| #[trigger]
            not_graduating(members).contains(m) <==> members.contains(m) && m.grade
                != Grade::Fourth,
{
    let keep = |m: MemberView| m.grade != Grade::Fourth;
    let left = members.filter(keep);
    assert forall|m: MemberView| #[trigger] left.contains(m) <==> members.contains(m) && m.grade
        != Grade::Fourth by {
        if left.contains(m) {
            members.lemma_filter_contains_rev(keep, m);
            let i = choose|i: int| 0 <= i < left.len() && left[i] == m;
            members.lemma_filter_pred(keep, i);
        }
        if members.contains(m) && m.grade != Grade::Fourth {
            let i = choose|i: int| 0 <= i < members.len() && members[i] == m;
            members.lemma_filter_contains(keep, i);
        }
    }
}

impl Circle {
    /// A new circle with a fresh identifier of 36 letters and digits and no
    /// additional members. The owner must be of the third grade and the
    /// capacity at least [`MIN_CAPACITY`]; the owner's grade is looked at
    /// first.
    pub fn create(name: String, owner: Member, capacity: i16) -> (created: Result<
        Circle,
        ValidationError,
    >)
        ensures
            match created {
                Ok(circle) => {
                    &&& creation_verdict(owner@, capacity as int) is Ok
                    &&& circle@ == (CircleView {
                        id: circle.id@,
                        name: name@,
                        capacity: capacity as int,
                        owner: owner@,
                        members: Seq::empty(),
                    })
                    &&& circle.id@.len() == 36
                    &&& all_alphanumeric(circle.id@)
                    &&& circle@.well_formed()
                },
                Err(e) => creation_verdict(owner@, capacity as int) == Err::<(), ValidationError>(e),
            },
            owner@.grade == Grade::Third && capacity >= MIN_CAPACITY ==> created is Ok,
            owner@.grade != Grade::Third ==> created == Err::<Circle, ValidationError>(
                ValidationError::InvalidOwnerGrade,
            ),
            owner@.grade == Grade::Third && capacity < MIN_CAPACITY ==> created == Err::<
                Circle,
                ValidationError,
            >(ValidationError::InvalidCapacity),
    {
        Circle::create_with_id(CircleId::gen(), name, owner, capacity)
    }

    /// A new circle under the identifier `id`, with no additional members.
    /// The owner must be of the third grade and the capacity at least
    /// [`MIN_CAPACITY`]; the owner's grade is looked at first.
    pub fn create_with_id(id: CircleId, name: String, owner: Member, capacity: i16) -> (created:
        Result<Circle, ValidationError>)
        ensures
            match created {
                Ok(circle) => {
                    &&& creation_verdict(owner@, capacity as int) is Ok
                    &&& circle@ == (CircleView {
                        id: id@,
                        name: name@,
                        capacity: capacity as int,
                        owner: owner@,
                        members: Seq::empty(),
                    })
                    &&& circle.id == id
                    &&& circle.owner == owner
                    &&& circle@.well_formed()
                },
                Err(e) => creation_verdict(owner@, capacity as int) == Err::<(), ValidationError>(e),
            },
            owner@.grade == Grade::Third && capacity >= MIN_CAPACITY ==> created is Ok,
            owner@.grade != Grade::Third ==> created == Err::<Circle, ValidationError>(
                ValidationError::InvalidOwnerGrade,
            ),
            owner@.grade == Grade::Third && capacity < MIN_CAPACITY ==> created == Err::<
                Circle,
                ValidationError,
            >(ValidationError::InvalidCapacity),
    {
        if owner.grade != Grade::Third {
            return Err(ValidationError::InvalidOwnerGrade);
        }
        if capacity < MIN_CAPACITY {
            return Err(ValidationError::InvalidCapacity);
        }
        let circle = Circle { id, name, owner, capacity, members: Vec::new() };
        assert(circle@.members =~= Seq::empty());
        Ok(circle)
    }

    /// The circle that the given values describe, taken as they are: stored
    /// state is not validated again.
    pub fn reconstruct(
        id: CircleId,
        name: String,
        owner: Member,
        capacity: i16,
        members: Vec<Member>,
    ) -> (circle: Circle)
        ensures
            circle@ == (CircleView {
                id: id@,
                name: name@,
                capacity: capacity as int,
                owner: owner@,
                members: member_views(members@),
            }),
            circle.id == id,
            circle.owner == owner,
            circle.members == members,
    {
        Circle { id, name, owner, capacity, members }
    }

    /// This circle with the name and the capacity replaced where one is
    /// given. The new capacity is not held against the headcount.
    pub fn update(self, name: Option<String>, capacity: Option<i16>) -> (updated: Circle)
        ensures
            updated@ == self@.revised(text_of(name), number_of(capacity)),
            self@.well_formed() && (capacity matches Some(c) ==> c >= MIN_CAPACITY && c
                >= self@.headcount()) ==> updated@.well_formed(),
    {
        let updated_name = match name {
            Some(n) => n,
            None => self.name,
        };
        let updated_capacity = match capacity {
            Some(c) => c,
            None => self.capacity,
        };
        Circle {
            id: self.id,
            name: updated_name,
            capacity: updated_capacity,
            owner: self.owner,
            members: self.members,
        }
    }

    /// This circle with `member` as its last additional member. A full
    /// circle admits nobody; a circle with room admits anyone but a member of
    /// the fourth grade. A well-formed circle stays so when the newcomer's
    /// identifier is new to it.
    pub fn add_member(self, member: Member) -> (joined: Result<Circle, MembershipError>)
        ensures
            match joined {
                Ok(circle) => admission(self@, member@) == Ok::<CircleView, MembershipError>(
                    circle@,
                ),
                Err(e) => admission(self@, member@) == Err::<CircleView, MembershipError>(e),
            },
            self@.headcount() >= self@.capacity ==> joined == Err::<Circle, MembershipError>(
                MembershipError::CircleFull,
            ),
            self@.headcount() < self@.capacity && member@.grade == Grade::Fourth ==> joined == Err::<
                Circle,
                MembershipError,
            >(MembershipError::GraduatingMemberRejected),
            self@.headcount() < self@.capacity && member@.grade != Grade::Fourth ==> joined is Ok,
            joined is Ok ==> joined->Ok_0@.headcount() <= self@.capacity,
            joined is Ok && self@.well_formed() && !has_id(self@.everyone(), member@.id)
                ==> joined->Ok_0@.well_formed(),
    {
        if self.is_full() {
            return Err(MembershipError::CircleFull);
        }
        if member.grade == Grade::Fourth {
            return Err(MembershipError::GraduatingMemberRejected);
        }
        let ghost before = self@;
        let ghost newcomer = member@;
        let mut members = self.members;
        proof {
            lemma_views_push(members@, member);
        }
        members.push(member);
        let circle = Circle {
            id: self.id,
            name: self.name,
            capacity: self.capacity,
            owner: self.owner,
            members,
        };
        proof {
            if before.well_formed() && !has_id(before.everyone(), newcomer.id) {
                assert(before.everyone()[0] == before.owner);
                assert forall|i: int| 0 <= i < before.members.len() implies (
                #[trigger] before.members[i]).id != newcomer.id by {
                    assert(before.everyone()[i + 1] == before.members[i]);
                }
                assert(!has_id(circle@.members, circle@.owner.id)) by {
                    if has_id(circle@.members, circle@.owner.id) {
                        let i = choose|i: int|
                            0 <= i < circle@.members.len() && (#[trigger] circle@.members[i]).id
                                == circle@.owner.id;
                        if i < before.members.len() {
                            assert(before.members[i].id == before.owner.id);
                        }
                    }
                }
            }
        }
        Ok(circle)
    }

    /// This circle without the members that have the identifier of `member`.
    /// The owner cannot be removed, and a member that is not there cannot be
    /// either. A well-formed circle stays so.
    pub fn remove_member(self, member: &Member) -> (left: Result<Circle, MembershipError>)
        ensures
            match left {
                Ok(circle) => removal(self@, member@.id) == Ok::<CircleView, MembershipError>(
                    circle@,
                ),
                Err(e) => removal(self@, member@.id) == Err::<CircleView, MembershipError>(e),
            },
            member@.id == self@.owner.id ==> left == Err::<Circle, MembershipError>(
                MembershipError::OwnerRemovalForbidden,
            ),
            member@.id != self@.owner.id && !has_id(self@.members, member@.id) ==> left == Err::<
                Circle,
                MembershipError,
            >(MembershipError::MemberNotFound),
            member@.id != self@.owner.id && has_id(self@.members, member@.id) ==> left is Ok,
            left is Ok ==> !has_id(left->Ok_0@.members, member@.id) && left->Ok_0@.members.len()
                < self@.members.len(),
            left is Ok && self@.well_formed() ==> left->Ok_0@.well_formed(),
    {
        if self.owner.id == member.id {
            return Err(MembershipError::OwnerRemovalForbidden);
        }
        let ghost all = member_views(self.members@);
        let ghost keep = |m: MemberView| m.id != member@.id;
        let mut kept: Vec<Member> = Vec::new();
        let mut found = false;
        let mut i: usize = 0;
        while i < self.members.len()
            invariant
                i <= self.members.len(),
                all == member_views(self.members@),
                keep == |m: MemberView| m.id != member@.id,
                member_views(kept@) == all.take(i as int).filter(keep),
                found == has_id(all.take(i as int), member@.id),
            decreases self.members.len() - i,
        {
            let current = &self.members[i];
            proof {
                assert(all.take(i + 1) =~= all.take(i as int).push(current@));
                all.take(i as int).lemma_filter_push(current@, keep);
                lemma_views_push(kept@, *current);
                if has_id(all.take(i as int), member@.id) {
                    let k = choose|k: int|
                        0 <= k < all.take(i as int).len() && (#[trigger] all.take(i as int)[k]).id
                            == member@.id;
                    assert(all.take(i + 1)[k].id == member@.id);
                }
                if current@.id == member@.id {
                    assert(all.take(i + 1)[i as int].id == member@.id);
                }
                if has_id(all.take(i + 1), member@.id) && current@.id != member@.id {
                    let k = choose|k: int|
                        0 <= k < all.take(i + 1).len() && (#[trigger] all.take(i + 1)[k]).id
                            == member@.id;
                    assert(all.take(i as int)[k].id == member@.id);
                }
            }
            if current.id == member.id {
                found = true;
            } else {
                kept.push(current.clone());
            }
            i += 1;
        }
        proof {
            assert(all.take(self.members.len() as int) =~= all);
            lemma_filter_keeps_distinct(all, keep);
            lemma_without_id_removes(all, member@.id);
        }
        if !found {
            return Err(MembershipError::MemberNotFound);
        }
        Ok(
            Circle {
                id: self.id,
                name: self.name,
                capacity: self.capacity,
                owner: self.owner,
                members: kept,
            },
        )
    }

    /// This circle without its additional members of the fourth grade. The
    /// owner stays whatever the owner's grade. A well-formed circle stays
    /// so.
    pub fn graduate(self) -> (stayed: Circle)
        ensures
            stayed@ == self@.with_members(not_graduating(self@.members)),
            stayed@.owner == self@.owner,
            forall|m: MemberView| #[trigger]
                stayed@.members.contains(m) <==> self@.members.contains(m) && m.grade
                    != Grade::Fourth,
            self@.well_formed() ==> stayed@.well_formed(),
    {
        let ghost all = member_views(self.members@);
        let ghost keep = |m: MemberView| m.grade != Grade::Fourth;
        let mut kept: Vec<Member> = Vec::new();
        let mut i: usize = 0;
        while i < self.members.len()
            invariant
                i <= self.members.len(),
                all == member_views(self.members@),
                keep == |m: MemberView| m.grade != Grade::Fourth,
                member_views(kept@) == all.take(i as int).filter(keep),
            decreases self.members.len() - i,
        {
            let current = &self.members[i];
            proof {
                assert(all.take(i + 1) =~= all.take(i as int).push(current@));
                all.take(i as int).lemma_filter_push(current@, keep);
                lemma_views_push(kept@, *current);
            }
            if current.grade != Grade::Fourth {
                kept.push(current.clone());
            }
            i += 1;
        }
        proof {
            assert(all.take(self.members.len() as int) =~= all);
            lemma_filter_keeps_distinct(all, keep);
            lemma_graduation_removes_all_and_only(all);
        }
        Circle {
            id: self.id,
            name: self.name,
            capacity: self.capacity,
            owner: self.owner,
            members: kept,
        }
    }

    /// The owner first, then the additional members.
    pub fn circle_members(&self) -> (everyone: Vec<&Member>)
        ensures
            everyone@.len() == self@.headcount(),
            borrowed_views(everyone@) == self@.everyone(),
    {
        let mut everyone: Vec<&Member> = Vec::new();
        everyone.push(&self.owner);
        assert(borrowed_views(everyone@) =~= seq![self.owner@] + member_views(self.members@).take(
            0,
        ));
        let mut i: usize = 0;
        while i < self.members.len()
            invariant
                i <= self.members.len(),
                everyone@.len() == i + 1,
                borrowed_views(everyone@) == seq![self.owner@] + member_views(self.members@).take(
                    i as int,
                ),
            decreases self.members.len() - i,
        {
            let ghost before = everyone@;
            everyone.push(&self.members[i]);
            assert(borrowed_views(everyone@) =~= borrowed_views(before).push(
                self.members[i as int]@,
            ));
            assert(borrowed_views(everyone@) =~= seq![self.owner@] + member_views(
                self.members@,
            ).take(i + 1));
            i += 1;
        }
        assert(member_views(self.members@).take(self.members.len() as int) =~= member_views(
            self.members@,
        ));
        everyone
    }

    /// Whether the headcount has reached the capacity.
    pub fn is_full(&self) -> (full: bool)
        ensures
            full == self@.is_full(),
    {
        if self.capacity <= 0 {
            true
        } else {
            self.members.len() >= (self.capacity as usize) - 1
        }
    }

    /// Whether the circle has the three people it needs to run.
    pub fn is_runnable(&self) -> (runnable: bool)
        ensures
            runnable == self@.is_runnable(),
    {
        self.members.len() >= 2
    }

    /// Whether `member` is old enough to drink alcohol: an adult.
    pub fn is_drinkable_alcohol(member: &Member) -> (allowed: bool)
        ensures
            allowed == member@.is_adult(),
    {
        member.is_adult()
    }

    /// The identifier of this circle.
    pub fn id(&self) -> (id: &CircleId)
        ensures
            *id == self.id,
    {
        &self.id
    }

    /// The name of this circle.
    pub fn name(&self) -> (name: &str)
        ensures
            name@ == self@.name,
    {
        self.name.as_str()
    }
}

impl Clone for Circle {
    fn clone(&self) -> (copy: Circle)
        ensures
            copy@ == self@,
    {
        Circle {
            id: self.id.clone(),
            name: self.name.clone(),
            capacity: self.capacity,
            owner: self.owner.clone(),
            members: clone_members(&self.members),
        }
    }
}

} // verus!
