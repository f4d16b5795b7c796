//! Enumerations that travel over the wire as 32-bit code points, and the sets
//! of them that a compositor advertises.

use vstd::prelude::*;

verus! {

/// An enumeration whose members are named by a 32-bit code point.
pub trait CodePoint: Copy + Sized {
    /// The code point of a member.
    spec fn code_spec(self) -> u32;

    /// The member that a code point names, if it names one.
    spec fn from_code_spec(code: u32) -> Option<Self>;

    /// The code point of a member.
    fn code(self) -> (code: u32)
        ensures
            code == self.code_spec(),
    ;

    /// The member that a code point names, if it names one.
    fn from_code(code: u32) -> (member: Option<Self>)
        ensures
            member == Self::from_code_spec(code),
    ;

    /// A code point names a member exactly when it is the member's own.
    proof fn from_code_inverts_code(code: u32, member: Self)
        ensures
            Self::from_code_spec(code) == Some(member) <==> member.code_spec() == code,
    ;
}

/// What is sent as a code point is read back as the same member.
pub proof fn code_round_trip<T: CodePoint>(member: T)
    ensures
        T::from_code_spec(member.code_spec()) == Some(member),
{
    T::from_code_inverts_code(member.code_spec(), member);
}

/// Two members with the same code point are the same member.
pub proof fn code_names_one_member<T: CodePoint>(a: T, b: T)
    requires
        a.code_spec() == b.code_spec(),
    ensures
        a == b,
{
    T::from_code_inverts_code(a.code_spec(), a);
    T::from_code_inverts_code(b.code_spec(), b);
}

/// The members of `items` in the order in which each first occurs.
pub open spec fn distinct<T>(items: Seq<T>) -> Seq<T>
    decreases items.len(),
{
    if items.len() == 0 {
        Seq::empty()
    } else {
        let before = distinct(items.drop_last());
        if before.contains(items.last()) {
            before
        } else {
            before.push(items.last())
        }
    }
}

/// Nothing is lost and nothing is repeated when repetitions are dropped.
pub proof fn distinct_keeps_members<T>(items: Seq<T>)
    ensures
        distinct(items).no_duplicates(),
        forall|x: T| distinct(items).contains(x) <==> items.contains(x),
    decreases items.len(),
{
    if items.len() > 0 {
        let init = items.drop_last();
        let last = items.last();
        let before = distinct(init);
        distinct_keeps_members(init);
        assert(items == init.push(last));
        assert forall|x: T| distinct(items).contains(x) <==> items.contains(x) by {
            broadcast use vstd::seq_lib::group_seq_properties;

            assert(init.contains(x) <==> before.contains(x));
        }
    }
}

/// A set of code points, kept in the order in which they were first named.
#[derive(Debug)]
pub struct SupportedSet<T> {
    items: Vec<T>,
}

impl<T> View for SupportedSet<T> {
    type V = Seq<T>;

    closed spec fn view(&self) -> Seq<T> {
        self.items@
    }
}

impl<T: CodePoint> SupportedSet<T> {
    /// Collects `items`, each once.
    pub fn collect(items: Vec<T>) -> (set: Self)
        ensures
            set@ == distinct(items@),
    {
        let mut set: SupportedSet<T> = SupportedSet { items: Vec::new() };
        let mut i: usize = 0;
        while i < items.len()
            invariant
                i <= items.len(),
                set@ == distinct(items@.take(i as int)),
            decreases items.len() - i,
        {
            proof {
                assert(items@.take(i + 1).drop_last() == items@.take(i as int));
            }
            let item = items[i];
            if !set.contains(item) {
                set.items.push(item);
            }
            i += 1;
        }
        proof {
            assert(items@.take(i as int) == items@);
        }
        set
    }

    /// Whether `item` is in the set.
    pub fn contains(&self, item: T) -> (found: bool)
        ensures
            found == self@.contains(item),
    {
        let wanted: u32 = item.code();
        let mut i: usize = 0;
        while i < self.items.len()
            invariant
                i <= self.items.len(),
                wanted == item.code_spec(),
                forall|j: int| 0 <= j < i ==> self.items@[j] != item,
            decreases self.items.len() - i,
        {
            let here: u32 = self.items[i].code();
            if here == wanted {
                proof {
                    code_names_one_member(self.items@[i as int], item);
                }
                return true;
            }
            i += 1;
        }
        false
    }

    /// The members, in order.
    pub fn items(&self) -> (items: &Vec<T>)
        ensures
            items@ == self@,
    {
        &self.items
    }
}

} // verus!
