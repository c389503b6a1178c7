//! Escrow of payments sent to a handle that has not registered yet: one
//! balance per denomination, kept sorted by denomination, never zero.

use vstd::prelude::*;
use crate::amount::{Uint256, max_amount};
use crate::text::{lex_lt, lemma_lex_irreflexive, lemma_lex_asymmetric, lemma_lex_transitive,
    lemma_lex_total, str_lt};

verus! {

/// An amount of one denomination.
#[derive(Debug)]
pub struct Coin {
    pub amount: Uint256,
    pub denom: String,
}

impl View for Coin {
    type V = (Seq<char>, nat);

    open spec fn view(&self) -> (Seq<char>, nat) {
        (self.denom@, self.amount.value())
    }
}

impl PartialEq for Coin {
    fn eq(&self, o: &Coin) -> (r: bool) {
        proof {
            Uint256::lemma_value_injective(self.amount, o.amount);
        }
        self.amount == o.amount && self.denom == o.denom
    }
}

impl vstd::std_specs::cmp::PartialEqSpecImpl for Coin {
    open spec fn obeys_eq_spec() -> bool {
        true
    }

    open spec fn eq_spec(&self, o: &Coin) -> bool {
        self@ == o@
    }
}

impl Coin {
    /// A copy of this coin.
    pub fn copied(&self) -> (r: Coin)
        ensures
            r@ == self@,
    {
        Coin { amount: self.amount, denom: self.denom.clone() }
    }
}

/// The views of a list of coins.
pub open spec fn coins_view(v: Seq<Coin>) -> Seq<(Seq<char>, nat)> {
    v.map_values(|c: Coin| c@)
}

/// Adds `a` of denomination `d` to the balances `s`: an existing entry of `d`
/// grows in place, a new denomination goes in before the first entry whose
/// denomination sorts after it, and a zero amount changes nothing.
pub open spec fn deposit(s: Seq<(Seq<char>, nat)>, d: Seq<char>, a: nat) -> Seq<(Seq<char>, nat)>
    decreases s.len(),
{
    if a == 0 {
        s
    } else if s.len() == 0 {
        seq![(d, a)]
    } else if s[0].0 == d {
        seq![(d, s[0].1 + a)] + s.drop_first()
    } else if lex_lt(d, s[0].0) {
        seq![(d, a)] + s
    } else {
        seq![s[0]] + deposit(s.drop_first(), d, a)
    }
}

/// Denominations strictly increase along the list, so each occurs once.
pub open spec fn sorted_denoms(s: Seq<(Seq<char>, nat)>) -> bool {
    forall|i: int, j: int| 0 <= i < j < s.len() ==> lex_lt(#[trigger] s[i].0, #[trigger] s[j].0)
}

/// No entry holds a zero amount.
pub open spec fn all_positive(s: Seq<(Seq<char>, nat)>) -> bool {
    forall|i: int| 0 <= i < s.len() ==> #[trigger] s[i].1 > 0
}

/// Adding `a` to the entry of `d`, if there is one, stays within 256 bits.
pub open spec fn room_for(s: Seq<(Seq<char>, nat)>, d: Seq<char>, a: nat) -> bool {
    forall|i: int| 0 <= i < s.len() && #[trigger] s[i].0 == d ==> s[i].1 + a <= max_amount()
}

/// The amount of denomination `d` in `s`, zero when it has no entry.
pub open spec fn amount_of(s: Seq<(Seq<char>, nat)>, d: Seq<char>) -> nat
    decreases s.len(),
{
    if s.len() == 0 {
        0
    } else if s[0].0 == d {
        s[0].1
    } else {
        amount_of(s.drop_first(), d)
    }
}

proof fn lemma_amount_absent(s: Seq<(Seq<char>, nat)>, d: Seq<char>)
    requires
        forall|k: int| 0 <= k < s.len() ==> (#[trigger] s[k]).0 != d,
    ensures
        amount_of(s, d) == 0,
    decreases s.len(),
{
    if s.len() > 0 {
        assert(s[0].0 != d);
        let t = s.drop_first();
        assert forall|k: int| 0 <= k < t.len() implies (#[trigger] t[k]).0 != d by {
            assert(t[k] == s[k + 1]);
        }
        lemma_amount_absent(t, d);
    }
}

/// A deposit into sorted balances adds exactly the deposited amount to its
/// denomination and leaves every other denomination's amount as it was.
pub proof fn lemma_deposit_amounts(s: Seq<(Seq<char>, nat)>, d: Seq<char>, a: nat, x: Seq<char>)
    requires
        sorted_denoms(s),
    ensures
        amount_of(deposit(s, d, a), x) == amount_of(s, x) + (if x == d { a } else { 0 }),
    decreases s.len(),
{
    if a == 0 {
        return;
    }
    if s.len() == 0 {
        assert(seq![(d, a)].drop_first() =~= s);
        return;
    }
    let t = s.drop_first();
    lemma_lex_irreflexive(d);
    if s[0].0 == d {
        assert((seq![(d, s[0].1 + a)] + t).drop_first() =~= t);
    } else if lex_lt(d, s[0].0) {
        assert((seq![(d, a)] + s).drop_first() =~= s);
        if x == d {
            assert forall|k: int| 0 <= k < s.len() implies (#[trigger] s[k]).0 != d by {
                if k > 0 {
                    lemma_lex_transitive(d, s[0].0, s[k].0);
                }
            }
            lemma_amount_absent(s, d);
        }
    } else {
        assert(sorted_denoms(t)) by {
            assert forall|i: int, j: int| 0 <= i < j < t.len() implies lex_lt(
                #[trigger] t[i].0,
                #[trigger] t[j].0,
            ) by {
                assert(t[i] == s[i + 1] && t[j] == s[j + 1]);
            }
        }
        lemma_deposit_amounts(t, d, a, x);
        assert((seq![s[0]] + deposit(t, d, a)).drop_first() =~= deposit(t, d, a));
    }
}

proof fn lemma_deposit_after_prefix(s: Seq<(Seq<char>, nat)>, d: Seq<char>, a: nat, i: int)
    requires
        a > 0,
        0 <= i <= s.len(),
        forall|k: int| 0 <= k < i ==> lex_lt(#[trigger] s[k].0, d),
    ensures
        deposit(s, d, a) == s.subrange(0, i) + deposit(s.subrange(i, s.len() as int), d, a),
    decreases i,
{
    if i == 0 {
        assert(s.subrange(0, s.len() as int) =~= s);
        assert(s.subrange(0, 0) + deposit(s, d, a) =~= deposit(s, d, a));
    } else {
        lemma_lex_irreflexive(d);
        lemma_lex_asymmetric(s[0].0, d);
        assert(lex_lt(s[0].0, d));
        let t = s.drop_first();
        assert forall|k: int| 0 <= k < i - 1 implies lex_lt(#[trigger] t[k].0, d) by {
            assert(t[k] == s[k + 1]);
        }
        lemma_deposit_after_prefix(t, d, a, i - 1);
        assert(t.subrange(i - 1, t.len() as int) =~= s.subrange(i, s.len() as int));
        assert(seq![s[0]] + t.subrange(0, i - 1) =~= s.subrange(0, i));
        assert(deposit(s, d, a) == seq![s[0]] + deposit(t, d, a));
        assert(seq![s[0]] + (t.subrange(0, i - 1) + deposit(s.subrange(i, s.len() as int), d, a))
            =~= s.subrange(0, i) + deposit(s.subrange(i, s.len() as int), d, a));
    }
}

/// Two deposits into the same escrow give the same balances in either
/// order: amounts of one denomination add up in a single entry, and the
/// entries stay in denomination order whichever came first.
pub proof fn lemma_deposit_commutes(
    s: Seq<(Seq<char>, nat)>,
    d1: Seq<char>,
    a1: nat,
    d2: Seq<char>,
    a2: nat,
)
    ensures
        deposit(deposit(s, d1, a1), d2, a2) == deposit(deposit(s, d2, a2), d1, a1),
    decreases s.len(),
{
    if a1 == 0 || a2 == 0 {
        return;
    }
    lemma_lex_irreflexive(d1);
    lemma_lex_irreflexive(d2);
    lemma_lex_asymmetric(d1, d2);
    lemma_lex_asymmetric(d2, d1);
    lemma_lex_total(d1, d2);
    let l = deposit(deposit(s, d1, a1), d2, a2);
    let r = deposit(deposit(s, d2, a2), d1, a1);
    if s.len() == 0 {
        let e = Seq::<(Seq<char>, nat)>::empty();
        if d1 == d2 {
            assert(seq![(d1, a1)].drop_first() =~= e);
            assert(seq![(d2, a2)].drop_first() =~= e);
            assert(l =~= seq![(d1, a1 + a2)]);
            assert(r =~= seq![(d1, a1 + a2)]);
        } else if lex_lt(d1, d2) {
            assert(deposit(seq![(d1, a1)], d2, a2) == seq![(d1, a1)] + deposit(
                seq![(d1, a1)].drop_first(),
                d2,
                a2,
            ));
            assert(seq![(d1, a1)].drop_first() =~= e);
            assert(l =~= seq![(d1, a1), (d2, a2)]);
            assert(r =~= seq![(d1, a1), (d2, a2)]);
        } else {
            assert(deposit(seq![(d2, a2)], d1, a1) == seq![(d2, a2)] + deposit(
                seq![(d2, a2)].drop_first(),
                d1,
                a1,
            ));
            assert(seq![(d2, a2)].drop_first() =~= e);
            assert(l =~= seq![(d2, a2), (d1, a1)]);
            assert(r =~= seq![(d2, a2), (d1, a1)]);
        }
        return;
    }
    let x = s[0].0;
    let t = s.drop_first();
    lemma_lex_asymmetric(d1, x);
    lemma_lex_asymmetric(x, d1);
    lemma_lex_asymmetric(d2, x);
    lemma_lex_asymmetric(x, d2);
    lemma_lex_total(d1, x);
    lemma_lex_total(d2, x);
    lemma_lex_transitive(d1, x, d2);
    lemma_lex_transitive(d2, x, d1);
    lemma_lex_transitive(d1, d2, x);
    lemma_lex_transitive(d2, d1, x);
    lemma_lex_transitive(x, d1, d2);
    lemma_lex_transitive(x, d2, d1);
    let dep1 = deposit(s, d1, a1);
    let dep2 = deposit(s, d2, a2);
    if d1 == x && d2 == x {
        assert(dep1 == seq![(x, s[0].1 + a1)] + t);
        assert(dep1.drop_first() =~= t);
        assert(dep2.drop_first() =~= t);
        assert(l =~= r);
    } else if d1 == x {
        assert(dep1.drop_first() =~= t);
        if lex_lt(d2, x) {
            assert(l =~= seq![(d2, a2)] + dep1);
            assert((seq![(d2, a2)] + s).drop_first() =~= s);
            assert(r =~= seq![(d2, a2)] + dep1);
        } else {
            assert(dep2 == seq![s[0]] + deposit(t, d2, a2));
            assert(dep2.drop_first() =~= deposit(t, d2, a2));
            assert(l =~= r);
        }
    } else if d2 == x {
        assert(dep2.drop_first() =~= t);
        if lex_lt(d1, x) {
            assert(r =~= seq![(d1, a1)] + dep2);
            assert((seq![(d1, a1)] + s).drop_first() =~= s);
            assert(l =~= seq![(d1, a1)] + dep2);
        } else {
            assert(dep1 == seq![s[0]] + deposit(t, d1, a1));
            assert(dep1.drop_first() =~= deposit(t, d1, a1));
            assert(l =~= r);
        }
    } else if lex_lt(d1, x) && lex_lt(d2, x) {
        assert((seq![(d1, a1)] + s).drop_first() =~= s);
        assert((seq![(d2, a2)] + s).drop_first() =~= s);
        if d1 == d2 {
            assert(l =~= r);
        } else if lex_lt(d1, d2) {
            assert(l =~= seq![(d1, a1), (d2, a2)] + s);
            assert((seq![(d2, a2)] + s).drop_first() =~= s);
            assert(r =~= seq![(d1, a1)] + (seq![(d2, a2)] + s));
        } else {
            assert(r =~= seq![(d2, a2), (d1, a1)] + s);
            assert(l =~= seq![(d2, a2)] + (seq![(d1, a1)] + s));
        }
    } else if lex_lt(d1, x) {
        assert((seq![(d1, a1)] + s).drop_first() =~= s);
        assert(dep2 == seq![s[0]] + deposit(t, d2, a2));
        assert(dep2.drop_first() =~= deposit(t, d2, a2));
        assert(l =~= seq![(d1, a1)] + dep2);
        assert(r =~= seq![(d1, a1)] + dep2);
    } else if lex_lt(d2, x) {
        assert((seq![(d2, a2)] + s).drop_first() =~= s);
        assert(dep1 == seq![s[0]] + deposit(t, d1, a1));
        assert(dep1.drop_first() =~= deposit(t, d1, a1));
        assert(l =~= seq![(d2, a2)] + dep1);
        assert(r =~= seq![(d2, a2)] + dep1);
    } else {
        assert(dep1 == seq![s[0]] + deposit(t, d1, a1));
        assert(dep2 == seq![s[0]] + deposit(t, d2, a2));
        assert(dep1.drop_first() =~= deposit(t, d1, a1));
        assert(dep2.drop_first() =~= deposit(t, d2, a2));
        lemma_deposit_commutes(t, d1, a1, d2, a2);
        assert(l =~= seq![s[0]] + deposit(deposit(t, d1, a1), d2, a2));
        assert(r =~= seq![s[0]] + deposit(deposit(t, d2, a2), d1, a1));
    }
}

/// A deposit of a positive amount leaves at least one entry.
pub proof fn lemma_deposit_nonempty(s: Seq<(Seq<char>, nat)>, d: Seq<char>, a: nat)
    requires
        a > 0,
    ensures
        deposit(s, d, a).len() > 0,
        deposit(s, d, a).len() >= s.len(),
    decreases s.len(),
{
    if s.len() > 0 && s[0].0 != d && !lex_lt(d, s[0].0) {
        lemma_deposit_nonempty(s.drop_first(), d, a);
    }
}

/// Payments held for one handle.
#[derive(Debug)]
pub struct PendingPayments {
    payments: Vec<Coin>,
}

impl View for PendingPayments {
    type V = Seq<(Seq<char>, nat)>;

    closed spec fn view(&self) -> Seq<(Seq<char>, nat)> {
        coins_view(self.payments@)
    }
}

impl PendingPayments {
    /// Sorted by denomination, one entry per denomination, none zero.
    pub open spec fn wf(&self) -> bool {
        sorted_denoms(self@) && all_positive(self@)
    }

    pub fn new() -> (r: PendingPayments)
        ensures
            r.wf(),
            r@ == Seq::<(Seq<char>, nat)>::empty(),
    {
        let r = PendingPayments { payments: Vec::new() };
        assert(r@ =~= Seq::<(Seq<char>, nat)>::empty());
        r
    }

    /// Whether `amount` more of `denom` can be held without overflow.
    pub fn has_room(&self, denom: &String, amount: Uint256) -> (r: bool)
        ensures
            r == room_for(self@, denom@, amount.value()),
    {
        let mut i: usize = 0;
        while i < self.payments.len()
            invariant
                i <= self.payments.len(),
                forall|k: int|
                    0 <= k < i && (#[trigger] self@[k]).0 == denom@ ==> self@[k].1 + amount.value()
                        <= max_amount(),
            decreases self.payments.len() - i,
        {
            if self.payments[i].denom == *denom {
                if self.payments[i].amount.checked_add(amount).is_none() {
                    assert(self@[i as int].0 == denom@);
                    return false;
                }
            }
            i = i + 1;
        }
        true
    }

    /// Adds a payment: a zero amount is ignored, an existing denomination
    /// grows in place, a new one is inserted at its sorted position.
    pub fn add_payment(&mut self, payment: Coin)
        requires
            old(self).wf(),
            room_for(old(self)@, payment.denom@, payment.amount.value()),
        ensures
            final(self).wf(),
            final(self)@ == deposit(old(self)@, payment.denom@, payment.amount.value()),
            forall|x: Seq<char>| #![auto] amount_of(final(self)@, x) == amount_of(old(self)@, x) + (
            if x == payment.denom@ {
                payment.amount.value()
            } else {
                0
            }),
    {
        proof {
            assert forall|x: Seq<char>| #![auto] amount_of(
                deposit(self@, payment.denom@, payment.amount.value()),
                x,
            ) == amount_of(self@, x) + (if x == payment.denom@ {
                payment.amount.value()
            } else {
                0
            }) by {
                lemma_deposit_amounts(self@, payment.denom@, payment.amount.value(), x);
            }
        }
        if payment.amount.is_zero() {
            return;
        }
        let ghost s = self@;
        let ghost d = payment.denom@;
        let ghost a = payment.amount.value();
        let n = self.payments.len();
        let mut i: usize = 0;
        while i < n && str_lt(self.payments[i].denom.as_str(), payment.denom.as_str())
            invariant
                self@ == s,
                n == s.len(),
                d == payment.denom@,
                i <= n,
                forall|k: int| 0 <= k < i ==> lex_lt(#[trigger] s[k].0, d),
            decreases n - i,
        {
            i = i + 1;
        }
        proof {
            lemma_deposit_after_prefix(s, d, a, i as int);
            lemma_lex_irreflexive(d);
        }
        let ghost t = s.subrange(i as int, s.len() as int);
        if i < n && self.payments[i].denom == payment.denom {
            let cur = self.payments[i].amount;
            assert(s[i as int].0 == d);
            let sum = cur.checked_add(payment.amount).unwrap();
            self.payments.set(i, Coin { amount: sum, denom: payment.denom });
            proof {
                assert(t[0] == s[i as int]);
                assert(deposit(t, d, a) == seq![(d, s[i as int].1 + a)] + t.drop_first());
                assert(self@ =~= s.subrange(0, i as int) + deposit(t, d, a));
                assert forall|x: int, y: int| 0 <= x < y < self@.len() implies lex_lt(
                    #[trigger] self@[x].0,
                    #[trigger] self@[y].0,
                ) by {
                    assert(self@[x].0 == s[x].0);
                    assert(self@[y].0 == s[y].0);
                }
                assert forall|x: int| 0 <= x < self@.len() implies #[trigger] self@[x].1 > 0 by {
                    if x != i {
                        assert(self@[x] == s[x]);
                    }
                }
            }
        } else {
            proof {
                if i < n {
                    assert(t[0] == s[i as int]);
                    lemma_lex_total(s[i as int].0, d);
                    assert(lex_lt(d, t[0].0));
                    assert(deposit(t, d, a) == seq![(d, a)] + t);
                } else {
                    assert(t.len() == 0);
                }
            }
            self.payments.insert(i, payment);
            proof {
                assert(self@ =~= s.subrange(0, i as int) + deposit(t, d, a));
                assert forall|x: int, y: int| 0 <= x < y < self@.len() implies lex_lt(
                    #[trigger] self@[x].0,
                    #[trigger] self@[y].0,
                ) by {
                    if y < i {
                        assert(self@[x] == s[x] && self@[y] == s[y]);
                    } else if y == i {
                        assert(self@[x] == s[x]);
                    } else if x == i {
                        assert(self@[y] == s[y - 1]);
                        assert(lex_lt(d, s[i as int].0));
                        if y - 1 > i {
                            lemma_lex_transitive(d, s[i as int].0, s[y - 1].0);
                        }
                    } else if x < i {
                        assert(self@[x] == s[x] && self@[y] == s[y - 1]);
                    } else {
                        assert(self@[x] == s[x - 1] && self@[y] == s[y - 1]);
                    }
                }
                assert forall|x: int| 0 <= x < self@.len() implies #[trigger] self@[x].1 > 0 by {
                    if x < i {
                        assert(self@[x] == s[x]);
                    } else if x > i {
                        assert(self@[x] == s[x - 1]);
                    }
                }
            }
        }
    }

    /// A copy of the held balances, sorted by denomination.
    pub fn coins(&self) -> (r: Vec<Coin>)
        ensures
            coins_view(r@) == self@,
    {
        let mut r: Vec<Coin> = Vec::new();
        let mut i: usize = 0;
        while i < self.payments.len()
            invariant
                i <= self.payments@.len(),
                r@.len() == i,
                forall|k: int| 0 <= k < i ==> (#[trigger] r@[k])@ == self.payments@[k]@,
            decreases self.payments.len() - i,
        {
            r.push(self.payments[i].copied());
            i = i + 1;
        }
        assert(coins_view(r@) =~= coins_view(self.payments@));
        r
    }

    /// The held balances, sorted by denomination.
    pub fn balance(self) -> (r: Vec<Coin>)
        ensures
            coins_view(r@) == self@,
    {
        self.payments
    }
}

impl Default for PendingPayments {
    fn default() -> (r: PendingPayments)
        ensures
            r.wf(),
            r@ == Seq::<(Seq<char>, nat)>::empty(),
    {
        PendingPayments::new()
    }
}

} // verus!
