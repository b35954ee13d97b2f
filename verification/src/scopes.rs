//! OAuth scopes: the single permissions, their order, and sets of them.

use std::cmp::Ordering;
use std::collections::HashSet;
use vstd::prelude::*;
use vstd::std_specs::cmp::{PartialEqSpecImpl, PartialOrdSpecImpl};
use vstd::std_specs::ops::BitOrSpecImpl;

verus! {

/// The granular `read:___` scopes.
#[derive(Debug, Clone, Copy, PartialEq, Eq, Hash, Structural)]
pub enum Read {
    Accounts,
    Blocks,
    Favourites,
    Filters,
    Follows,
    Lists,
    Mutes,
    Notifications,
    Reports,
    Search,
    Statuses,
}

/// The granular `write:___` scopes.
#[derive(Debug, Clone, Copy, PartialEq, Eq, Hash, Structural)]
pub enum Write {
    Accounts,
    Blocks,
    Favourites,
    Filters,
    Follows,
    Lists,
    Media,
    Mutes,
    Notifications,
    Reports,
    Statuses,
}

/// One permission of an application.
#[derive(Debug, Clone, Copy, PartialEq, Eq, Hash, Structural)]
pub enum Scope {
    /// Read permission: all of it, or one part.
    Read(Option<Read>),
    /// Write permission: all of it, or one part.
    Write(Option<Write>),
    /// Permission to add and remove followers.
    Follow,
    /// Permission to receive push notifications.
    Push,
}

/// How two positions in an order compare.
pub open spec fn order_of(a: nat, b: nat) -> Ordering {
    if a < b {
        Ordering::Less
    } else if a == b {
        Ordering::Equal
    } else {
        Ordering::Greater
    }
}

/// How two small numbers compare.
pub open spec fn order_of_small(a: u8, b: u8) -> Ordering {
    if a < b {
        Ordering::Less
    } else if a == b {
        Ordering::Equal
    } else {
        Ordering::Greater
    }
}

fn order(a: u8, b: u8) -> (r: Ordering)
    ensures
        r == order_of_small(a, b),
{
    if a < b {
        Ordering::Less
    } else if a == b {
        Ordering::Equal
    } else {
        Ordering::Greater
    }
}

impl Read {
    /// The place of this scope among the read scopes: the place of its name
    /// in the alphabet.
    pub open spec fn rank_spec(self) -> nat {
        match self {
            Read::Accounts => 0,
            Read::Blocks => 1,
            Read::Favourites => 2,
            Read::Filters => 3,
            Read::Follows => 4,
            Read::Lists => 5,
            Read::Mutes => 6,
            Read::Notifications => 7,
            Read::Reports => 8,
            Read::Search => 9,
            Read::Statuses => 10,
        }
    }

    /// The place of this scope among the read scopes.
    pub fn rank(self) -> (r: u8)
        ensures
            r == self.rank_spec(),
    {
        match self {
            Read::Accounts => 0,
            Read::Blocks => 1,
            Read::Favourites => 2,
            Read::Filters => 3,
            Read::Follows => 4,
            Read::Lists => 5,
            Read::Mutes => 6,
            Read::Notifications => 7,
            Read::Reports => 8,
            Read::Search => 9,
            Read::Statuses => 10,
        }
    }

    /// The text of this scope.
    pub open spec fn name_spec(self) -> Seq<char> {
        match self {
            Read::Accounts => "read:accounts"@,
            Read::Blocks => "read:blocks"@,
            Read::Favourites => "read:favourites"@,
            Read::Filters => "read:filters"@,
            Read::Follows => "read:follows"@,
            Read::Lists => "read:lists"@,
            Read::Mutes => "read:mutes"@,
            Read::Notifications => "read:notifications"@,
            Read::Reports => "read:reports"@,
            Read::Search => "read:search"@,
            Read::Statuses => "read:statuses"@,
        }
    }

    /// The text of this scope.
    pub fn name(self) -> (r: &'static str)
        ensures
            r@ == self.name_spec(),
    {
        match self {
            Read::Accounts => "read:accounts",
            Read::Blocks => "read:blocks",
            Read::Favourites => "read:favourites",
            Read::Filters => "read:filters",
            Read::Follows => "read:follows",
            Read::Lists => "read:lists",
            Read::Mutes => "read:mutes",
            Read::Notifications => "read:notifications",
            Read::Reports => "read:reports",
            Read::Search => "read:search",
            Read::Statuses => "read:statuses",
        }
    }

    /// The text of this scope, as a new string.
    pub fn to_string(&self) -> (r: String)
        ensures
            r@ == self.name_spec(),
    {
        String::from_str(self.name())
    }
}

impl Write {
    /// The place of this scope among the write scopes: the place of its name
    /// in the alphabet.
    pub open spec fn rank_spec(self) -> nat {
        match self {
            Write::Accounts => 0,
            Write::Blocks => 1,
            Write::Favourites => 2,
            Write::Filters => 3,
            Write::Follows => 4,
            Write::Lists => 5,
            Write::Media => 6,
            Write::Mutes => 7,
            Write::Notifications => 8,
            Write::Reports => 9,
            Write::Statuses => 10,
        }
    }

    /// The place of this scope among the write scopes.
    pub fn rank(self) -> (r: u8)
        ensures
            r == self.rank_spec(),
    {
        match self {
            Write::Accounts => 0,
            Write::Blocks => 1,
            Write::Favourites => 2,
            Write::Filters => 3,
            Write::Follows => 4,
            Write::Lists => 5,
            Write::Media => 6,
            Write::Mutes => 7,
            Write::Notifications => 8,
            Write::Reports => 9,
            Write::Statuses => 10,
        }
    }

    /// The text of this scope.
    pub open spec fn name_spec(self) -> Seq<char> {
        match self {
            Write::Accounts => "write:accounts"@,
            Write::Blocks => "write:blocks"@,
            Write::Favourites => "write:favourites"@,
            Write::Filters => "write:filters"@,
            Write::Follows => "write:follows"@,
            Write::Lists => "write:lists"@,
            Write::Media => "write:media"@,
            Write::Mutes => "write:mutes"@,
            Write::Notifications => "write:notifications"@,
            Write::Reports => "write:reports"@,
            Write::Statuses => "write:statuses"@,
        }
    }

    /// The text of this scope.
    pub fn name(self) -> (r: &'static str)
        ensures
            r@ == self.name_spec(),
    {
        match self {
            Write::Accounts => "write:accounts",
            Write::Blocks => "write:blocks",
            Write::Favourites => "write:favourites",
            Write::Filters => "write:filters",
            Write::Follows => "write:follows",
            Write::Lists => "write:lists",
            Write::Media => "write:media",
            Write::Mutes => "write:mutes",
            Write::Notifications => "write:notifications",
            Write::Reports => "write:reports",
            Write::Statuses => "write:statuses",
        }
    }

    /// The text of this scope, as a new string.
    pub fn to_string(&self) -> (r: String)
        ensures
            r@ == self.name_spec(),
    {
        String::from_str(self.name())
    }
}

impl Scope {
    /// The place of this scope among all scopes: read before write before
    /// follow before push, a whole permission before its parts, and the parts
    /// by their names.
    pub open spec fn rank_spec(self) -> nat {
        match self {
            Scope::Read(None) => 0,
            Scope::Read(Some(r)) => 1 + r.rank_spec(),
            Scope::Write(None) => 12,
            Scope::Write(Some(w)) => 13 + w.rank_spec(),
            Scope::Follow => 24,
            Scope::Push => 25,
        }
    }

    /// The place of this scope among all scopes.
    pub fn rank(self) -> (r: u8)
        ensures
            r == self.rank_spec(),
            r < 26,
    {
        match self {
            Scope::Read(None) => 0,
            Scope::Read(Some(r)) => 1 + r.rank(),
            Scope::Write(None) => 12,
            Scope::Write(Some(w)) => 13 + w.rank(),
            Scope::Follow => 24,
            Scope::Push => 25,
        }
    }

    /// The text of this scope.
    pub open spec fn name_spec(self) -> Seq<char> {
        match self {
            Scope::Read(None) => "read"@,
            Scope::Read(Some(r)) => r.name_spec(),
            Scope::Write(None) => "write"@,
            Scope::Write(Some(w)) => w.name_spec(),
            Scope::Follow => "follow"@,
            Scope::Push => "push"@,
        }
    }

    /// The text of this scope.
    pub fn name(self) -> (r: &'static str)
        ensures
            r@ == self.name_spec(),
    {
        match self {
            Scope::Read(None) => "read",
            Scope::Read(Some(r)) => r.name(),
            Scope::Write(None) => "write",
            Scope::Write(Some(w)) => w.name(),
            Scope::Follow => "follow",
            Scope::Push => "push",
        }
    }

    /// The text of this scope, as a new string.
    pub fn to_string(&self) -> (r: String)
        ensures
            r@ == self.name_spec(),
    {
        String::from_str(self.name())
    }

    /// How this scope compares with `other` in the order of scopes.
    pub fn cmp(&self, other: &Scope) -> (r: Ordering)
        ensures
            r == order_of(self.rank_spec(), other.rank_spec()),
    {
        order(self.rank(), other.rank())
    }
}

impl Default for Scope {
    fn default() -> (r: Scope)
        ensures
            r == Scope::Read(None),
    {
        Scope::Read(None)
    }
}

impl PartialOrd for Read {
    fn partial_cmp(&self, other: &Read) -> (r: Option<Ordering>) {
        Some(order(self.rank(), other.rank()))
    }
}

impl PartialOrdSpecImpl for Read {
    open spec fn obeys_partial_cmp_spec() -> bool {
        true
    }

    open spec fn partial_cmp_spec(&self, other: &Read) -> Option<Ordering> {
        Some(order_of(self.rank_spec(), other.rank_spec()))
    }
}

impl PartialOrd for Write {
    fn partial_cmp(&self, other: &Write) -> (r: Option<Ordering>) {
        Some(order(self.rank(), other.rank()))
    }
}

impl PartialOrdSpecImpl for Write {
    open spec fn obeys_partial_cmp_spec() -> bool {
        true
    }

    open spec fn partial_cmp_spec(&self, other: &Write) -> Option<Ordering> {
        Some(order_of(self.rank_spec(), other.rank_spec()))
    }
}

impl PartialOrd for Scope {
    fn partial_cmp(&self, other: &Scope) -> (r: Option<Ordering>) {
        Some(order(self.rank(), other.rank()))
    }
}

impl PartialOrdSpecImpl for Scope {
    open spec fn obeys_partial_cmp_spec() -> bool {
        true
    }

    open spec fn partial_cmp_spec(&self, other: &Scope) -> Option<Ordering> {
        Some(order_of(self.rank_spec(), other.rank_spec()))
    }
}

/// The read scope at the place `rank` among the read scopes.
pub open spec fn read_at(rank: nat) -> Read {
    if rank == 0 {
        Read::Accounts
    } else if rank == 1 {
        Read::Blocks
    } else if rank == 2 {
        Read::Favourites
    } else if rank == 3 {
        Read::Filters
    } else if rank == 4 {
        Read::Follows
    } else if rank == 5 {
        Read::Lists
    } else if rank == 6 {
        Read::Mutes
    } else if rank == 7 {
        Read::Notifications
    } else if rank == 8 {
        Read::Reports
    } else if rank == 9 {
        Read::Search
    } else {
        Read::Statuses
    }
}

/// The write scope at the place `rank` among the write scopes.
pub open spec fn write_at(rank: nat) -> Write {
    if rank == 0 {
        Write::Accounts
    } else if rank == 1 {
        Write::Blocks
    } else if rank == 2 {
        Write::Favourites
    } else if rank == 3 {
        Write::Filters
    } else if rank == 4 {
        Write::Follows
    } else if rank == 5 {
        Write::Lists
    } else if rank == 6 {
        Write::Media
    } else if rank == 7 {
        Write::Mutes
    } else if rank == 8 {
        Write::Notifications
    } else if rank == 9 {
        Write::Reports
    } else {
        Write::Statuses
    }
}

/// The scope at the place `rank` among all scopes.
pub open spec fn scope_at(rank: nat) -> Scope {
    if rank == 0 {
        Scope::Read(None)
    } else if rank <= 11 {
        Scope::Read(Some(read_at((rank - 1) as nat)))
    } else if rank == 12 {
        Scope::Write(None)
    } else if rank <= 23 {
        Scope::Write(Some(write_at((rank - 13) as nat)))
    } else if rank == 24 {
        Scope::Follow
    } else {
        Scope::Push
    }
}

/// The number of scopes.
pub open spec fn scope_count() -> nat {
    26
}

/// Places and scopes correspond one to one.
pub proof fn lemma_scope_at_rank(s: Scope)
    ensures
        s.rank_spec() < scope_count(),
        scope_at(s.rank_spec()) == s,
{
}

/// Places and scopes correspond one to one.
pub proof fn lemma_rank_of_scope_at(rank: nat)
    requires
        rank < scope_count(),
    ensures
        scope_at(rank).rank_spec() == rank,
{
}

fn read_from_rank(rank: u8) -> (r: Read)
    requires
        rank < 11,
    ensures
        r == read_at(rank as nat),
{
    match rank {
        0 => Read::Accounts,
        1 => Read::Blocks,
        2 => Read::Favourites,
        3 => Read::Filters,
        4 => Read::Follows,
        5 => Read::Lists,
        6 => Read::Mutes,
        7 => Read::Notifications,
        8 => Read::Reports,
        9 => Read::Search,
        _ => Read::Statuses,
    }
}

fn write_from_rank(rank: u8) -> (r: Write)
    requires
        rank < 11,
    ensures
        r == write_at(rank as nat),
{
    match rank {
        0 => Write::Accounts,
        1 => Write::Blocks,
        2 => Write::Favourites,
        3 => Write::Filters,
        4 => Write::Follows,
        5 => Write::Lists,
        6 => Write::Media,
        7 => Write::Mutes,
        8 => Write::Notifications,
        9 => Write::Reports,
        _ => Write::Statuses,
    }
}

/// The scope at the place `rank`, or `None` where there is no such place.
pub fn scope_from_rank(rank: u8) -> (r: Option<Scope>)
    ensures
        rank < 26 ==> r == Some(scope_at(rank as nat)),
        rank >= 26 ==> r is None,
{
    if rank == 0 {
        Some(Scope::Read(None))
    } else if rank <= 11 {
        Some(Scope::Read(Some(read_from_rank(rank - 1))))
    } else if rank == 12 {
        Some(Scope::Write(None))
    } else if rank <= 23 {
        Some(Scope::Write(Some(write_from_rank(rank - 13))))
    } else if rank == 24 {
        Some(Scope::Follow)
    } else if rank == 25 {
        Some(Scope::Push)
    } else {
        None
    }
}

/// Whether a scope with a place below `upto` is in `members`.
pub open spec fn any_below(members: Set<Scope>, upto: nat) -> bool
    decreases upto,
{
    if upto == 0 {
        false
    } else {
        members.contains(scope_at((upto - 1) as nat)) || any_below(members, (upto - 1) as nat)
    }
}

/// The names of the members with a place below `upto`, in the order of
/// scopes, with one space between two names.
pub open spec fn joined(members: Set<Scope>, upto: nat) -> Seq<char>
    decreases upto,
{
    if upto == 0 {
        Seq::empty()
    } else {
        let before = joined(members, (upto - 1) as nat);
        let s = scope_at((upto - 1) as nat);
        if !members.contains(s) {
            before
        } else if any_below(members, (upto - 1) as nat) {
            before + " "@ + s.name_spec()
        } else {
            s.name_spec()
        }
    }
}

/// How a set of scopes is written: the names of its members in the order of
/// scopes, with one space between two names.
pub open spec fn display_of(members: Set<Scope>) -> Seq<char> {
    joined(members, scope_count())
}

/// A set of one scope is written as the name of that scope.
pub proof fn lemma_display_of_one(s: Scope)
    ensures
        display_of(set![s]) == s.name_spec(),
{
    lemma_scope_at_rank(s);
    lemma_joined_one(s, scope_count());
}

proof fn lemma_joined_one(s: Scope, upto: nat)
    requires
        upto <= scope_count(),
    ensures
        any_below(set![s], upto) == (s.rank_spec() < upto),
        joined(set![s], upto) == if s.rank_spec() < upto {
            s.name_spec()
        } else {
            Seq::<char>::empty()
        },
    decreases upto,
{
    if upto > 0 {
        let at = (upto - 1) as nat;
        lemma_joined_one(s, at);
        lemma_rank_of_scope_at(at);
        lemma_scope_at_rank(s);
    }
}

/// A set of OAuth scopes. The set holds each of its scopes by the place that
/// the scope has in the order of scopes.
#[derive(Debug)]
pub struct Scopes {
    scopes: HashSet<u8>,
}

/// The set of scopes whose places are in `places`.
pub open spec fn scopes_at(places: Set<u8>) -> Set<Scope> {
    Set::new(|s: Scope| places.contains(s.rank_spec() as u8))
}

impl View for Scopes {
    type V = Set<Scope>;

    closed spec fn view(&self) -> Set<Scope> {
        scopes_at(self.scopes@)
    }
}

impl Scopes {
    /// The set that holds `scope` and nothing else.
    pub fn new(scope: Scope) -> (r: Scopes)
        ensures
            r@ == set![scope],
    {
        broadcast use vstd::std_specs::hash::group_hash_axioms;

        let mut scopes: HashSet<u8> = HashSet::new();
        scopes.insert(scope.rank());
        let r = Scopes { scopes };
        proof {
            assert forall|s: Scope| r@.contains(s) == set![scope].contains(s) by {
                lemma_scope_at_rank(s);
                lemma_scope_at_rank(scope);
            }
            assert(r@ =~= set![scope]);
        }
        r
    }

    /// All scopes there are to ask for: `read write follow push`.
    pub fn all() -> (r: Scopes)
        ensures
            r@ == set![Scope::Read(None), Scope::Write(None), Scope::Follow, Scope::Push],
    {
        let r = Scopes::read_all().and(Scopes::write_all()).and(Scopes::follow()).and(
            Scopes::push(),
        );
        proof {
            assert(r@ =~= set![Scope::Read(None), Scope::Write(None), Scope::Follow, Scope::Push]);
        }
        r
    }

    /// The whole read permission.
    pub fn read_all() -> (r: Scopes)
        ensures
            r@ == set![Scope::Read(None)],
    {
        Scopes::_read(None)
    }

    /// One part of the read permission.
    pub fn read(subscope: Read) -> (r: Scopes)
        ensures
            r@ == set![Scope::Read(Some(subscope))],
    {
        Scopes::_read(Some(subscope))
    }

    /// The whole write permission.
    pub fn write_all() -> (r: Scopes)
        ensures
            r@ == set![Scope::Write(None)],
    {
        Scopes::_write(None)
    }

    /// One part of the write permission.
    pub fn write(subscope: Write) -> (r: Scopes)
        ensures
            r@ == set![Scope::Write(Some(subscope))],
    {
        Scopes::_write(Some(subscope))
    }

    /// The follow permission.
    pub fn follow() -> (r: Scopes)
        ensures
            r@ == set![Scope::Follow],
    {
        Scopes::new(Scope::Follow)
    }

    /// The push permission.
    pub fn push() -> (r: Scopes)
        ensures
            r@ == set![Scope::Push],
    {
        Scopes::new(Scope::Push)
    }

    /// The places of scopes that are in either of two sets of places.
    fn merged(a: &HashSet<u8>, b: &HashSet<u8>) -> (r: HashSet<u8>)
        ensures
            forall|j: u8| r@.contains(j) <==> (j < 26 && (a@.contains(j) || b@.contains(j))),
    {
        broadcast use vstd::std_specs::hash::group_hash_axioms;

        let mut scopes: HashSet<u8> = HashSet::new();
        let mut i: u8 = 0;
        while i < 26
            invariant
                i <= 26,
                forall|j: u8| scopes@.contains(j) <==> (j < i && (a@.contains(j) || b@.contains(j))),
            decreases 26 - i,
        {
            if a.contains(&i) || b.contains(&i) {
                scopes.insert(i);
            }
            i += 1;
        }
        scopes
    }

    /// The scopes of this set and of `other` together.
    pub fn and(self, other: Scopes) -> (r: Scopes)
        ensures
            r@ == self@.union(other@),
    {
        let r = Scopes { scopes: Scopes::merged(&self.scopes, &other.scopes) };
        proof {
            assert forall|s: Scope| r@.contains(s) == self@.union(other@).contains(s) by {
                lemma_scope_at_rank(s);
            }
            assert(r@ =~= self@.union(other@));
        }
        r
    }

    /// The write permission: all of it, or one part.
    pub fn _write(subscope: Option<Write>) -> (r: Scopes)
        ensures
            r@ == set![Scope::Write(subscope)],
    {
        Scopes::new(Scope::Write(subscope))
    }

    /// The read permission: all of it, or one part.
    pub fn _read(subscope: Option<Read>) -> (r: Scopes)
        ensures
            r@ == set![Scope::Read(subscope)],
    {
        Scopes::new(Scope::Read(subscope))
    }

    /// Whether `scope` is in this set.
    pub fn contains(&self, scope: Scope) -> (r: bool)
        ensures
            r == self@.contains(scope),
    {
        broadcast use vstd::std_specs::hash::group_hash_axioms;

        let at: u8 = scope.rank();
        self.scopes.contains(&at)
    }

    /// The set as text: the names of its members in the order of scopes, with
    /// one space between two names.
    pub fn to_string(&self) -> (r: String)
        ensures
            r@ == display_of(self@),
    {
        broadcast use vstd::std_specs::hash::group_hash_axioms;

        let mut out = String::new();
        let mut start = true;
        let mut i: u8 = 0;
        while i < 26
            invariant
                i <= 26,
                out@ == joined(self@, i as nat),
                start == !any_below(self@, i as nat),
            decreases 26 - i,
        {
            proof {
                lemma_rank_of_scope_at(i as nat);
            }
            if self.scopes.contains(&i) {
                if let Some(scope) = scope_from_rank(i) {
                    if !start {
                        out.append(" ");
                        out.append(scope.name());
                    } else {
                        start = false;
                        out = String::from_str(scope.name());
                    }
                }
            }
            i += 1;
        }
        out
    }
}

impl Clone for Scopes {
    fn clone(&self) -> (r: Scopes)
        ensures
            r@ == self@,
    {
        let r = Scopes { scopes: Scopes::merged(&self.scopes, &self.scopes) };
        proof {
            assert forall|s: Scope| r@.contains(s) == self@.contains(s) by {
                lemma_scope_at_rank(s);
            }
            assert(r@ =~= self@);
        }
        r
    }
}

impl Default for Scopes {
    fn default() -> (r: Scopes)
        ensures
            r@ == set![Scope::Read(None)],
    {
        Scopes::read_all()
    }
}

impl PartialEq for Scopes {
    fn eq(&self, other: &Scopes) -> (r: bool) {
        broadcast use vstd::std_specs::hash::group_hash_axioms;

        let mut i: u8 = 0;
        while i < 26
            invariant
                i <= 26,
                forall|j: u8| j < i ==> self.scopes@.contains(j) == other.scopes@.contains(j),
            decreases 26 - i,
        {
            if self.scopes.contains(&i) != other.scopes.contains(&i) {
                proof {
                    let s = scope_at(i as nat);
                    lemma_rank_of_scope_at(i as nat);
                    assert(self@.contains(s) != other@.contains(s));
                }
                return false;
            }
            i += 1;
        }
        proof {
            assert forall|s: Scope| self@.contains(s) == other@.contains(s) by {
                lemma_scope_at_rank(s);
            }
            assert(self@ =~= other@);
        }
        true
    }
}

impl PartialEqSpecImpl for Scopes {
    open spec fn obeys_eq_spec() -> bool {
        true
    }

    open spec fn eq_spec(&self, other: &Scopes) -> bool {
        self@ == other@
    }
}

/// `a | b` is `a.and(b)`. What it returns is stated by the `ensures` of `bitor`,
/// over the sets that the two operands stand for; no value is named here.
impl BitOrSpecImpl for Scopes {
    open spec fn obeys_bitor_spec() -> bool {
        false
    }

    open spec fn bitor_req(self, other: Scopes) -> bool {
        true
    }

    open spec fn bitor_spec(self, other: Scopes) -> Scopes {
        other
    }
}

impl core::ops::BitOr for Scopes {
    type Output = Scopes;

    fn bitor(self, other: Scopes) -> (r: Scopes)
        ensures
            r@ == self@.union(other@),
    {
        self.and(other)
    }
}

} // verus!
