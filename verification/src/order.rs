use vstd::prelude::*;

verus! {

/// The outcome of comparing two values.
#[derive(Clone, Copy, Debug, PartialEq, Eq, Structural)]
pub enum Order {
    Less,
    Equal,
    Greater,
}

impl Order {
    /// The outcome seen from the other side.
    pub open spec fn flip(self) -> Order {
        match self {
            Order::Less => Order::Greater,
            Order::Equal => Order::Equal,
            Order::Greater => Order::Less,
        }
    }
}

/// Values with a three-way comparison of their own.
pub trait Ordered: Sized {
    spec fn order_spec(&self, other: &Self) -> Order;

    fn compare(&self, other: &Self) -> (o: Order)
        ensures
            o == self.order_spec(other),
    ;

    fn duplicate(&self) -> (r: Self)
        ensures
            r == *self,
    ;
}

/// Unsigned integers are ordered by value.
impl Ordered for u64 {
    open spec fn order_spec(&self, other: &Self) -> Order {
        if *self < *other {
            Order::Less
        } else if *self > *other {
            Order::Greater
        } else {
            Order::Equal
        }
    }

    fn compare(&self, other: &Self) -> (o: Order) {
        if *self < *other {
            Order::Less
        } else if *self > *other {
            Order::Greater
        } else {
            Order::Equal
        }
    }

    fn duplicate(&self) -> (r: Self) {
        *self
    }
}

/// `order_spec` behaves as a total preorder whose `Equal` is an equivalence.
pub open spec fn total_order<T: Ordered>() -> bool {
    &&& forall|a: T| #[trigger] a.order_spec(&a) == Order::Equal
    &&& forall|a: T, b: T| #[trigger] a.order_spec(&b) == b.order_spec(&a).flip()
    &&& forall|a: T, b: T, c: T|
        #![trigger a.order_spec(&b), b.order_spec(&c)]
        a.order_spec(&b) == Order::Less && b.order_spec(&c) == Order::Less ==> a.order_spec(&c)
            == Order::Less
    &&& forall|a: T, b: T, c: T|
        #![trigger a.order_spec(&b), b.order_spec(&c)]
        a.order_spec(&b) == Order::Equal ==> a.order_spec(&c) == b.order_spec(&c)
}

/// The order of unsigned integers by value is total.
pub proof fn lemma_u64_total_order()
    ensures
        total_order::<u64>(),
{
}

/// Each element is strictly below every later one.
pub open spec fn strictly_sorted<T: Ordered>(s: Seq<T>) -> bool {
    forall|i: int, j: int| 0 <= i < j < s.len() ==> #[trigger] s[i].order_spec(&s[j]) == Order::Less
}

/// Lexicographic order of two character sequences, by code point.
pub open spec fn lex_order(a: Seq<char>, b: Seq<char>) -> Order
    decreases a.len(),
{
    if a.len() == 0 && b.len() == 0 {
        Order::Equal
    } else if a.len() == 0 {
        Order::Less
    } else if b.len() == 0 {
        Order::Greater
    } else if a[0] < b[0] {
        Order::Less
    } else if a[0] > b[0] {
        Order::Greater
    } else {
        lex_order(a.drop_first(), b.drop_first())
    }
}

pub proof fn lemma_lex_equal(a: Seq<char>, b: Seq<char>)
    ensures
        lex_order(a, b) == Order::Equal <==> a == b,
    decreases a.len(),
{
    if a.len() > 0 && b.len() > 0 && a[0] == b[0] {
        lemma_lex_equal(a.drop_first(), b.drop_first());
        if a.drop_first() =~= b.drop_first() {
            assert(a =~= b) by {
                assert forall|i: int| 0 <= i < a.len() implies a[i] == b[i] by {
                    if i > 0 {
                        assert(a[i] == a.drop_first()[i - 1]);
                        assert(b[i] == b.drop_first()[i - 1]);
                    }
                }
            }
        }
        if a == b {
            assert(a.drop_first() =~= b.drop_first());
        }
    } else if a.len() > 0 && b.len() > 0 {
        assert(a[0] != b[0]);
        assert(a != b);
    } else if a.len() != b.len() {
        assert(a != b);
    } else {
        assert(a =~= b);
    }
}

pub proof fn lemma_lex_flip(a: Seq<char>, b: Seq<char>)
    ensures
        lex_order(a, b) == lex_order(b, a).flip(),
    decreases a.len(),
{
    if a.len() > 0 && b.len() > 0 && a[0] == b[0] {
        lemma_lex_flip(a.drop_first(), b.drop_first());
    }
}

pub proof fn lemma_lex_less_trans(a: Seq<char>, b: Seq<char>, c: Seq<char>)
    requires
        lex_order(a, b) == Order::Less,
        lex_order(b, c) == Order::Less,
    ensures
        lex_order(a, c) == Order::Less,
    decreases a.len(),
{
    if a.len() > 0 && b.len() > 0 && c.len() > 0 && a[0] == b[0] && b[0] == c[0] {
        lemma_lex_less_trans(a.drop_first(), b.drop_first(), c.drop_first());
    }
}

/// Compares two character sequences lexicographically.
pub fn lex_compare(a: &Vec<char>, b: &Vec<char>) -> (o: Order)
    ensures
        o == lex_order(a@, b@),
{
    let mut i: usize = 0;
    assert(a@.skip(0) =~= a@);
    assert(b@.skip(0) =~= b@);
    while i < a.len() && i < b.len()
        invariant
            i <= a.len(),
            i <= b.len(),
            lex_order(a@, b@) == lex_order(a@.skip(i as int), b@.skip(i as int)),
        decreases a.len() - i,
    {
        if a[i] < b[i] {
            return Order::Less;
        } else if a[i] > b[i] {
            return Order::Greater;
        }
        assert(a@.skip(i as int).drop_first() =~= a@.skip(i + 1));
        assert(b@.skip(i as int).drop_first() =~= b@.skip(i + 1));
        i = i + 1;
    }
    if i == a.len() && i == b.len() {
        Order::Equal
    } else if i == a.len() {
        Order::Less
    } else {
        Order::Greater
    }
}

/// Whether `a` is not above `b`.
pub open spec fn not_above<T: Ordered>(a: T, b: T) -> bool {
    a.order_spec(&b) != Order::Greater
}

/// Each element is not above any later one.
pub open spec fn sorted<T: Ordered>(s: Seq<T>) -> bool {
    forall|i: int, j: int| 0 <= i < j < s.len() ==> #[trigger] not_above(s[i], s[j])
}

/// `s` with `x` put after the last of its elements that is not above `x`, scanning from the end.
pub open spec fn insert_sorted<T: Ordered>(s: Seq<T>, x: T) -> Seq<T>
    decreases s.len(),
{
    if s.len() == 0 {
        seq![x]
    } else if s.last().order_spec(&x) == Order::Greater {
        insert_sorted(s.drop_last(), x).push(s.last())
    } else {
        s.push(x)
    }
}

/// The stable insertion sort of `s`.
pub open spec fn sort_spec<T: Ordered>(s: Seq<T>) -> Seq<T>
    decreases s.len(),
{
    if s.len() == 0 {
        seq![]
    } else {
        insert_sorted(sort_spec(s.drop_last()), s.last())
    }
}

fn insert_in_order<T: Ordered>(r: &mut Vec<T>, x: T)
    ensures
        final(r)@ == insert_sorted(old(r)@, x),
{
    let mut p = r.len();
    assert(r@.take(p as int) =~= r@);
    assert(r@.skip(p as int) =~= Seq::<T>::empty());
    while p > 0 && r[p - 1].compare(&x) == Order::Greater
        invariant
            p <= r.len(),
            insert_sorted(r@, x) =~= insert_sorted(r@.take(p as int), x) + r@.skip(p as int),
        decreases p,
    {
        assert(r@.take(p as int).drop_last() =~= r@.take(p - 1));
        assert(r@.take(p as int).last() == r@[p - 1]);
        assert(r@.skip(p - 1) =~= seq![r@[p - 1]] + r@.skip(p as int));
        p = p - 1;
    }
    let ghost before = r@;
    if p > 0 {
        assert(r@.take(p as int).last() == r@[p - 1]);
    }
    r.insert(p, x);
    assert(r@ =~= before.take(p as int).push(x) + before.skip(p as int));
}

/// Sorts a list, stably, as `sort_spec` says.
pub fn sort_items<T: Ordered>(v: Vec<T>) -> (r: Vec<T>)
    ensures
        r@ == sort_spec(v@),
{
    let ghost all = v@;
    let n = v.len();
    let mut rest = v;
    let mut r: Vec<T> = Vec::new();
    let mut k: usize = 0;
    assert(all.take(0) =~= Seq::<T>::empty());
    while k < n
        invariant
            all.len() == n,
            k <= n,
            rest@ == all.skip(k as int),
            r@ == sort_spec(all.take(k as int)),
        decreases n - k,
    {
        let x = rest.remove(0);
        assert(x == all[k as int]);
        assert(rest@ =~= all.skip(k + 1));
        assert(all.take(k + 1).drop_last() =~= all.take(k as int));
        insert_in_order(&mut r, x);
        k = k + 1;
    }
    assert(all.take(n as int) =~= all);
    r
}

/// Under a total order, `not_above` is transitive.
pub proof fn lemma_not_above_trans<T: Ordered>(a: T, b: T, c: T)
    requires
        total_order::<T>(),
        not_above(a, b),
        not_above(b, c),
    ensures
        not_above(a, c),
{
    let ab = a.order_spec(&b);
    let bc = b.order_spec(&c);
    assert(b.order_spec(&a) == ab.flip());
    assert(c.order_spec(&b) == bc.flip());
    if ab == Order::Equal {
        assert(a.order_spec(&c) == b.order_spec(&c));
    } else if bc == Order::Equal {
        assert(c.order_spec(&b) == Order::Equal);
        assert(c.order_spec(&a) == b.order_spec(&a));
        assert(a.order_spec(&c) == c.order_spec(&a).flip());
    } else {
        assert(a.order_spec(&c) == Order::Less);
    }
}

/// Where `insert_sorted` puts `x` in a sorted list: after every element not above it and
/// before every element above it.
pub proof fn lemma_insert_sorted_shape<T: Ordered>(s: Seq<T>, x: T) -> (p: int)
    ensures
        0 <= p <= s.len(),
        insert_sorted(s, x) == s.take(p).push(x) + s.skip(p),
        forall|j: int| p <= j < s.len() ==> #[trigger] s[j].order_spec(&x) == Order::Greater,
        p > 0 ==> not_above(s[p - 1], x),
    decreases s.len(),
{
    if s.len() == 0 {
        assert(insert_sorted(s, x) =~= s.take(0).push(x) + s.skip(0));
        0
    } else if s.last().order_spec(&x) == Order::Greater {
        let p = lemma_insert_sorted_shape(s.drop_last(), x);
        assert(s.drop_last().take(p) =~= s.take(p));
        assert(s.drop_last().skip(p).push(s.last()) =~= s.skip(p));
        assert(insert_sorted(s, x) =~= s.take(p).push(x) + s.skip(p));
        assert forall|j: int| p <= j < s.len() implies #[trigger] s[j].order_spec(&x) == Order::Greater by {
            if j < s.len() - 1 {
                assert(s.drop_last()[j] == s[j]);
            }
        }
        if p > 0 {
            assert(s.drop_last()[p - 1] == s[p - 1]);
        }
        p
    } else {
        let p = s.len() as int;
        assert(insert_sorted(s, x) =~= s.take(p).push(x) + s.skip(p));
        p
    }
}

/// Under a total order, the sort of any list is sorted.
pub proof fn law_sort_sorted<T: Ordered>(s: Seq<T>)
    requires
        total_order::<T>(),
    ensures
        sorted(sort_spec(s)),
    decreases s.len(),
{
    if s.len() > 0 {
        law_sort_sorted(s.drop_last());
        let t = sort_spec(s.drop_last());
        let x = s.last();
        let p = lemma_insert_sorted_shape(t, x);
        let u = sort_spec(s);
        assert(u == t.take(p).push(x) + t.skip(p));
        assert(u.len() == t.len() + 1);
        assert forall|i: int, j: int| 0 <= i < j < u.len() implies #[trigger] not_above(u[i], u[j]) by {
            if j < p {
                assert(u[i] == t[i] && u[j] == t[j]);
            } else if j == p {
                assert(u[i] == t[i] && u[j] == x);
                if i < p - 1 {
                    assert(not_above(t[i], t[p - 1]));
                    lemma_not_above_trans(t[i], t[p - 1], x);
                }
            } else if i < p {
                assert(u[i] == t[i] && u[j] == t[j - 1]);
            } else if i == p {
                assert(u[i] == x && u[j] == t[j - 1]);
                assert(t[j - 1].order_spec(&x) == Order::Greater);
                assert(x.order_spec(&t[j - 1]) == t[j - 1].order_spec(&x).flip());
            } else {
                assert(u[i] == t[i - 1] && u[j] == t[j - 1]);
            }
        }
    }
}

/// The sort of a list holds the same items, as many times each.
pub proof fn law_sort_permutation<T: Ordered>(s: Seq<T>)
    ensures
        sort_spec(s).to_multiset() == s.to_multiset(),
    decreases s.len(),
{
    broadcast use vstd::seq_lib::to_multiset_build, vstd::seq_lib::to_multiset_insert;

    if s.len() > 0 {
        law_sort_permutation(s.drop_last());
        let t = sort_spec(s.drop_last());
        let p = lemma_insert_sorted_shape(t, s.last());
        assert(t.take(p).push(s.last()) + t.skip(p) =~= t.insert(p, s.last()));
        assert(sort_spec(s) == t.insert(p, s.last()));
        assert(t.insert(p, s.last()).to_multiset() == t.to_multiset().insert(s.last()));
        assert(s.drop_last().push(s.last()) =~= s);
        assert(s.drop_last().push(s.last()).to_multiset() =~= s.drop_last().to_multiset().insert(s.last()));
    } else {
        assert(s =~= Seq::<T>::empty());
    }
}

} // verus!
