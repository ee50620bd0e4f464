//! The identity of network interfaces, and maps from it that are walked in
//! its order.

use vstd::prelude::*;

verus! {

/// What tells an interface apart: its number, and where the platform gives
/// one, a name by which a number that is used again is told from its earlier
/// bearer.
#[derive(Clone, Debug, PartialEq, Eq)]
pub struct InterfaceId {
    pub numeric: u64,
    pub incarnation: Option<Vec<u8>>,
}

/// The identity of an interface as a mathematical value.
pub ghost struct IdModel {
    pub numeric: u64,
    pub incarnation: Option<Seq<u8>>,
}

impl View for InterfaceId {
    type V = IdModel;

    open spec fn view(&self) -> IdModel {
        IdModel {
            numeric: self.numeric,
            incarnation: match self.incarnation {
                Some(bytes) => Some(bytes@),
                None => None,
            },
        }
    }
}

/// Whether bytes come before others in the order of a dictionary.
pub open spec fn bytes_before(a: Seq<u8>, b: Seq<u8>) -> bool
    decreases a.len(),
{
    if b.len() == 0 {
        false
    } else if a.len() == 0 {
        true
    } else if a[0] == b[0] {
        bytes_before(a.drop_first(), b.drop_first())
    } else {
        a[0] < b[0]
    }
}

/// Whether an identity comes before another: by number, then without a name
/// before with one, then by name.
pub open spec fn id_before(a: IdModel, b: IdModel) -> bool {
    if a.numeric != b.numeric {
        a.numeric < b.numeric
    } else {
        match (a.incarnation, b.incarnation) {
            (None, Some(_)) => true,
            (Some(x), Some(y)) => bytes_before(x, y),
            _ => false,
        }
    }
}

/// How two identities stand to each other.
#[derive(Clone, Copy, Debug, PartialEq, Eq, Structural)]
pub enum Place {
    Before,
    Same,
    After,
}

proof fn bytes_order(a: Seq<u8>, b: Seq<u8>)
    ensures
        !bytes_before(a, a),
        a == b || bytes_before(a, b) || bytes_before(b, a),
        !(bytes_before(a, b) && bytes_before(b, a)),
    decreases a.len(),
{
    if a.len() > 0 {
        bytes_order(a.drop_first(), a.drop_first());
        if b.len() > 0 && a[0] == b[0] {
            bytes_order(a.drop_first(), b.drop_first());
            if a.drop_first() == b.drop_first() {
                assert(a =~= seq![a[0]] + a.drop_first());
                assert(b =~= seq![b[0]] + b.drop_first());
            }
        }
    } else if b.len() == 0 {
        assert(a =~= b);
    }
}

proof fn bytes_transitive(a: Seq<u8>, b: Seq<u8>, c: Seq<u8>)
    requires
        bytes_before(a, b),
        bytes_before(b, c),
    ensures
        bytes_before(a, c),
    decreases a.len(),
{
    if a.len() > 0 && a[0] == b[0] && b[0] == c[0] {
        bytes_transitive(a.drop_first(), b.drop_first(), c.drop_first());
    }
}

/// The order of identities is total: of two different ones exactly one comes
/// first, and none comes before itself.
pub proof fn identities_are_ordered(a: IdModel, b: IdModel)
    ensures
        !id_before(a, a),
        a == b || id_before(a, b) || id_before(b, a),
        !(id_before(a, b) && id_before(b, a)),
{
    if a.incarnation is Some {
        bytes_order(a.incarnation->0, a.incarnation->0);
        if b.incarnation is Some {
            bytes_order(a.incarnation->0, b.incarnation->0);
        }
    }
}

/// The order of identities is transitive.
pub proof fn identity_order_is_transitive(a: IdModel, b: IdModel, c: IdModel)
    requires
        id_before(a, b),
        id_before(b, c),
    ensures
        id_before(a, c),
{
    if a.numeric == b.numeric && b.numeric == c.numeric && a.incarnation is Some {
        bytes_transitive(a.incarnation->0, b.incarnation->0, c.incarnation->0);
    }
}

fn place_of_bytes(a: &Vec<u8>, b: &Vec<u8>) -> (r: Place)
    ensures
        r is Before <==> bytes_before(a@, b@),
        r is Same <==> a@ == b@,
        r is After <==> bytes_before(b@, a@),
{
    let mut i: usize = 0;
    proof {
        assert(a@.skip(0) =~= a@);
        assert(b@.skip(0) =~= b@);
    }
    while i < a.len() && i < b.len()
        invariant
            i <= a.len(),
            i <= b.len(),
            a@ == b@ <==> a@.skip(i as int) == b@.skip(i as int),
            bytes_before(a@, b@) <==> bytes_before(a@.skip(i as int), b@.skip(i as int)),
            bytes_before(b@, a@) <==> bytes_before(b@.skip(i as int), a@.skip(i as int)),
        decreases a.len() - i,
    {
        let ghost x = a@.skip(i as int);
        let ghost y = b@.skip(i as int);
        assert(x[0] == a@[i as int]);
        assert(y[0] == b@[i as int]);
        if a[i] < b[i] {
            return Place::Before;
        }
        if b[i] < a[i] {
            return Place::After;
        }
        proof {
            assert(x.drop_first() =~= a@.skip(i + 1));
            assert(y.drop_first() =~= b@.skip(i + 1));
            assert(x =~= seq![x[0]] + x.drop_first());
            assert(y =~= seq![y[0]] + y.drop_first());
        }
        i = i + 1;
    }
    let ghost x = a@.skip(i as int);
    let ghost y = b@.skip(i as int);
    proof {
        bytes_order(x, y);
    }
    if i < b.len() {
        assert(x.len() == 0 && y.len() > 0);
        Place::Before
    } else if i < a.len() {
        assert(y.len() == 0 && x.len() > 0);
        Place::After
    } else {
        assert(x =~= y);
        Place::Same
    }
}

fn copy_bytes(bytes: &Vec<u8>) -> (r: Vec<u8>)
    ensures
        r@ == bytes@,
{
    let mut r: Vec<u8> = Vec::new();
    let mut i: usize = 0;
    while i < bytes.len()
        invariant
            i <= bytes.len(),
            r@ == bytes@.take(i as int),
        decreases bytes.len() - i,
    {
        r.push(bytes[i]);
        i = i + 1;
        assert(r@ =~= bytes@.take(i as int));
    }
    assert(bytes@.take(i as int) =~= bytes@);
    r
}

impl InterfaceId {
    /// An interface that is told apart by its number alone.
    pub fn numeric(value: u64) -> (r: InterfaceId)
        ensures
            r@ == (IdModel { numeric: value, incarnation: None }),
    {
        InterfaceId { numeric: value, incarnation: None }
    }

    /// An interface that is told apart by its number and its name.
    pub fn with_incarnation(value: u64, incarnation: Vec<u8>) -> (r: InterfaceId)
        ensures
            r@ == (IdModel { numeric: value, incarnation: Some(incarnation@) }),
    {
        InterfaceId { numeric: value, incarnation: Some(incarnation) }
    }

    /// The same identity once more.
    pub fn copy(&self) -> (r: InterfaceId)
        ensures
            r@ == self@,
    {
        let incarnation = match &self.incarnation {
            Some(bytes) => Some(copy_bytes(bytes)),
            None => None,
        };
        InterfaceId { numeric: self.numeric, incarnation }
    }

    /// How this identity stands to another.
    pub fn place(&self, other: &InterfaceId) -> (r: Place)
        ensures
            r is Before <==> id_before(self@, other@),
            r is Same <==> self@ == other@,
            r is After <==> id_before(other@, self@),
    {
        if self.numeric < other.numeric {
            return Place::Before;
        }
        if other.numeric < self.numeric {
            return Place::After;
        }
        match (&self.incarnation, &other.incarnation) {
            (None, None) => Place::Same,
            (None, Some(_)) => Place::Before,
            (Some(_), None) => Place::After,
            (Some(a), Some(b)) => place_of_bytes(a, b),
        }
    }
}

/// Whether the identities of a list strictly ascend.
pub open spec fn ascending<V>(list: Seq<(IdModel, V)>) -> bool {
    forall|i: int, j: int|
        0 <= i < j < list.len() ==> id_before(#[trigger] list[i].0, #[trigger] list[j].0)
}

/// What a list holds for an identity.
pub open spec fn lookup<V>(list: Seq<(IdModel, V)>, id: IdModel) -> Option<V>
    decreases list.len(),
{
    if list.len() == 0 {
        None
    } else if list.last().0 == id {
        Some(list.last().1)
    } else {
        lookup(list.drop_last(), id)
    }
}

/// How many entries at the head of a list come before an identity.
pub open spec fn head_before<V>(list: Seq<(IdModel, V)>, id: IdModel) -> int
    decreases list.len(),
{
    if list.len() == 0 || !id_before(list[0].0, id) {
        0
    } else {
        1 + head_before(list.drop_first(), id)
    }
}

/// An ascending list with the value of an identity added or replaced.
pub open spec fn inserted<V>(list: Seq<(IdModel, V)>, id: IdModel, value: V) -> Seq<(IdModel, V)> {
    let k = head_before(list, id);
    if k < list.len() && list[k].0 == id {
        list.update(k, (id, value))
    } else {
        list.insert(k, (id, value))
    }
}

proof fn head_is_within<V>(list: Seq<(IdModel, V)>, id: IdModel)
    ensures
        0 <= head_before(list, id) <= list.len(),
        forall|i: int| 0 <= i < head_before(list, id) ==> id_before(#[trigger] list[i].0, id),
        head_before(list, id) < list.len() ==> !id_before(list[head_before(list, id)].0, id),
    decreases list.len(),
{
    if list.len() > 0 && id_before(list[0].0, id) {
        let rest = list.drop_first();
        head_is_within(rest, id);
        assert forall|i: int| 0 <= i < head_before(list, id) implies id_before(
            #[trigger] list[i].0,
            id,
        ) by {
            if i > 0 {
                assert(rest[i - 1] == list[i]);
            }
        }
        if head_before(list, id) < list.len() {
            assert(rest[head_before(rest, id)] == list[head_before(list, id)]);
        }
    }
}

proof fn head_is_unique<V>(list: Seq<(IdModel, V)>, id: IdModel, k: int)
    requires
        0 <= k <= list.len(),
        forall|i: int| 0 <= i < k ==> id_before(#[trigger] list[i].0, id),
        k < list.len() ==> !id_before(list[k].0, id),
    ensures
        head_before(list, id) == k,
{
    head_is_within(list, id);
}

/// A list holds for an identity the value of the entry that has it.
pub proof fn lookup_is_at_its_place<V>(list: Seq<(IdModel, V)>, i: int)
    requires
        ascending(list),
        0 <= i < list.len(),
    ensures
        lookup(list, list[i].0) == Some(list[i].1),
    decreases list.len(),
{
    if i < list.len() - 1 {
        identities_are_ordered(list[i].0, list.last().0);
        assert(list.drop_last()[i] == list[i]);
        assert(ascending(list.drop_last()));
        lookup_is_at_its_place(list.drop_last(), i);
    }
}

/// A list holds something for an identity exactly where an entry has it.
pub proof fn lookup_finds_entries<V>(list: Seq<(IdModel, V)>, id: IdModel)
    ensures
        lookup(list, id) is Some <==> exists|i: int| 0 <= i < list.len() && #[trigger] list[i].0 == id,
        lookup(list, id) is Some ==> exists|i: int|
            0 <= i < list.len() && #[trigger] list[i] == (id, lookup(list, id)->0),
    decreases list.len(),
{
    if list.len() > 0 {
        let rest = list.drop_last();
        lookup_finds_entries(rest, id);
        if list.last().0 == id {
            assert(list[list.len() - 1] == (id, lookup(list, id)->0));
        } else if lookup(rest, id) is Some {
            let i = choose|i: int| 0 <= i < rest.len() && #[trigger] rest[i] == (id, lookup(rest, id)->0);
            assert(list[i] == rest[i]);
        } else {
            assert forall|i: int| 0 <= i < list.len() implies #[trigger] list[i].0 != id by {
                if i < rest.len() {
                    assert(rest[i] == list[i]);
                }
            }
        }
    }
}

/// Adding an entry keeps a list ascending, gives the entry's value for its
/// identity and leaves every other value as it was.
pub proof fn insertion_sets_one_value<V>(list: Seq<(IdModel, V)>, id: IdModel, value: V, other: IdModel)
    requires
        ascending(list),
    ensures
        ascending(inserted(list, id, value)),
        lookup(inserted(list, id, value), id) == Some(value),
        other != id ==> lookup(inserted(list, id, value), other) == lookup(list, other),
{
    let k = head_before(list, id);
    let new = inserted(list, id, value);
    head_is_within(list, id);
    let replaced = k < list.len() && list[k].0 == id;
    assert forall|i: int| k <= i < list.len() implies (#[trigger] list[i].0 == id || id_before(
        id,
        list[i].0,
    )) by {
        identities_are_ordered(list[k].0, id);
        if i > k && !(list[k].0 == id) {
            identity_order_is_transitive(id, list[k].0, list[i].0);
        }
    }
    assert forall|i: int| k <= i < list.len() && !(i == k && replaced) implies id_before(
        id,
        #[trigger] list[i].0,
    ) by {
        if i > k && replaced {
            assert(id_before(list[k].0, list[i].0));
        } else if i > k {
            identities_are_ordered(list[k].0, id);
            identity_order_is_transitive(id, list[k].0, list[i].0);
        }
    }
    assert forall|i: int, j: int| 0 <= i < j < new.len() implies id_before(
        #[trigger] new[i].0,
        #[trigger] new[j].0,
    ) by {
        if replaced {
            if i != k && j != k {
                assert(new[i] == list[i] && new[j] == list[j]);
            } else if j == k {
                assert(new[i] == list[i]);
            } else {
                assert(new[j] == list[j]);
            }
        } else {
            if j < k {
                assert(new[i] == list[i] && new[j] == list[j]);
            } else if i < k && j > k {
                assert(new[i] == list[i] && new[j] == list[j - 1]);
            } else if j == k {
                assert(new[i] == list[i]);
            } else if i == k {
                assert(new[j] == list[j - 1]);
            } else {
                assert(new[i] == list[i - 1] && new[j] == list[j - 1]);
            }
        }
    }
    assert(new[k] == (id, value));
    lookup_is_at_its_place(new, k);
    if other != id {
        lookup_finds_entries(new, other);
        lookup_finds_entries(list, other);
        if lookup(new, other) is Some {
            let i = choose|i: int| 0 <= i < new.len() && #[trigger] new[i] == (other, lookup(new, other)->0);
            let old_place = if replaced || i < k {
                i
            } else {
                i - 1
            };
            assert(list[old_place] == new[i]);
            lookup_is_at_its_place(list, old_place);
        } else if lookup(list, other) is Some {
            let i = choose|i: int|
                0 <= i < list.len() && #[trigger] list[i] == (other, lookup(list, other)->0);
            let new_place = if replaced || i < k {
                i
            } else {
                i + 1
            };
            assert(new[new_place] == list[i]);
            assert(new[new_place].0 == other);
        }
    }
}

/// A map from identities that is walked in their order. Its view is the list
/// of its entries in that order.
#[derive(Debug)]
pub struct IdMap<V> {
    entries: Vec<(InterfaceId, V)>,
}

/// The views of entries.
pub open spec fn entry_views<V>(entries: Seq<(InterfaceId, V)>) -> Seq<(IdModel, V)> {
    entries.map_values(|entry: (InterfaceId, V)| (entry.0@, entry.1))
}

impl<V> View for IdMap<V> {
    type V = Seq<(IdModel, V)>;

    closed spec fn view(&self) -> Seq<(IdModel, V)> {
        entry_views(self.entries@)
    }
}

impl<V> IdMap<V> {
    #[verifier::type_invariant]
    spec fn is_ascending(self) -> bool {
        ascending(entry_views(self.entries@))
    }
}

impl<V: Copy> IdMap<V> {
    /// The map that holds nothing.
    pub fn new() -> (r: IdMap<V>)
        ensures
            r@ == Seq::<(IdModel, V)>::empty(),
    {
        let r = IdMap { entries: Vec::new() };
        assert(r@ =~= Seq::empty());
        r
    }

    /// How many entries there are.
    pub fn len(&self) -> (r: usize)
        ensures
            r == self@.len(),
            ascending(self@),
    {
        proof {
            use_type_invariant(self);
        }
        self.entries.len()
    }

    /// The identity of an entry, by its place in the order.
    pub fn id(&self, i: usize) -> (r: &InterfaceId)
        requires
            i < self@.len(),
        ensures
            r@ == self@[i as int].0,
    {
        &self.entries[i].0
    }

    /// The value of an entry, by its place in the order.
    pub fn value(&self, i: usize) -> (r: V)
        requires
            i < self@.len(),
        ensures
            r == self@[i as int].1,
    {
        self.entries[i].1
    }

    /// What the map holds for an identity.
    pub fn get(&self, id: &InterfaceId) -> (r: Option<V>)
        ensures
            r == lookup(self@, id@),
    {
        let mut i: usize = self.entries.len();
        assert(self@.take(i as int) =~= self@);
        while i > 0
            invariant
                i <= self@.len(),
                self@.len() == self.entries.len(),
                lookup(self@, id@) == lookup(self@.take(i as int), id@),
            decreases i,
        {
            let ghost upto = self@.take(i as int);
            i = i - 1;
            assert(upto.last() == self@[i as int]);
            assert(upto.drop_last() =~= self@.take(i as int));
            match id.place(&self.entries[i].0) {
                Place::Same => {
                    return Some(self.entries[i].1);
                },
                _ => {},
            }
        }
        None
    }

    /// Adds an entry, or replaces the value of the one that is there.
    pub fn insert(self, id: InterfaceId, value: V) -> (r: IdMap<V>)
        ensures
            r@ == inserted(self@, id@, value),
            r@.len() <= self@.len() + 1,
    {
        proof {
            use_type_invariant(&self);
        }
        let ghost list = self@;
        let mut entries = self.entries;
        let mut k: usize = 0;
        let mut found = false;
        while k < entries.len()
            invariant_except_break
                !found,
            invariant
                list == entry_views(entries@),
                0 <= k <= entries.len(),
                forall|i: int| 0 <= i < k ==> id_before(#[trigger] list[i].0, id@),
            ensures
                k < list.len() ==> !id_before(list[k as int].0, id@),
                found <==> k < list.len() && list[k as int].0 == id@,
            decreases entries.len() - k,
        {
            match entries[k].0.place(&id) {
                Place::Before => {
                    k = k + 1;
                },
                Place::Same => {
                    found = true;
                    proof {
                        identities_are_ordered(id@, id@);
                    }
                    break;
                },
                Place::After => {
                    proof {
                        identities_are_ordered(entries@[k as int].0@, id@);
                    }
                    break;
                },
            }
        }
        let ghost view = id@;
        proof {
            head_is_unique(list, view, k as int);
            insertion_sets_one_value(list, view, value, view);
        }
        if found {
            entries.set(k, (id, value));
        } else {
            entries.insert(k, (id, value));
        }
        assert(entry_views(entries@) =~= inserted(list, view, value));
        IdMap { entries }
    }

    /// Adds an entry behind all others.
    pub fn push(self, id: InterfaceId, value: V) -> (r: IdMap<V>)
        requires
            self@.len() > 0 ==> id_before(self@.last().0, id@),
        ensures
            r@ == self@.push((id@, value)),
    {
        proof {
            use_type_invariant(&self);
        }
        let ghost list = self@;
        let mut entries = self.entries;
        let ghost view = id@;
        entries.push((id, value));
        proof {
            assert(entry_views(entries@) =~= list.push((view, value)));
            let new = list.push((view, value));
            assert forall|i: int, j: int| 0 <= i < j < new.len() implies id_before(
                #[trigger] new[i].0,
                #[trigger] new[j].0,
            ) by {
                if j == list.len() && i < list.len() - 1 {
                    assert(id_before(list[i].0, list[list.len() - 1].0));
                    identity_order_is_transitive(list[i].0, list.last().0, view);
                }
            }
        }
        IdMap { entries }
    }
}

} // verus!
