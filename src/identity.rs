//! Deployment identities and the namespaced labels built from them.
use vstd::prelude::*;

verus! {

/// Marker that gives deployment identities a counter of their own type.
#[derive(Clone, Copy, Debug, PartialEq, Eq)]
pub struct DeploymentTag;

/// Relies on uid::Id::new and Id::get: each call takes the next value of a
/// process-wide atomic counter that starts at one, so no two calls in a run
/// return the same value and none returns zero. (uid panics once the counter
/// wraps, after `usize::MAX` draws.)
#[verifier::external_body]
pub(crate) fn fresh_identity() -> (r: usize)
    ensures
        r > 0,
{
    uid::Id::<DeploymentTag>::new().get()
}

/// The decimal digit for a value below ten.
pub open spec fn digit_char(d: nat) -> char {
    if d == 0 { '0' }
    else if d == 1 { '1' }
    else if d == 2 { '2' }
    else if d == 3 { '3' }
    else if d == 4 { '4' }
    else if d == 5 { '5' }
    else if d == 6 { '6' }
    else if d == 7 { '7' }
    else if d == 8 { '8' }
    else { '9' }
}

/// The decimal notation of a natural number, without leading zeros.
pub open spec fn decimal(n: nat) -> Seq<char>
    decreases n,
{
    if n < 10 {
        seq![digit_char(n)]
    } else {
        decimal(n / 10).push(digit_char(n % 10))
    }
}

/// The label of a deployment: the contract name, a colon, the identity.
pub open spec fn label_of(name: Seq<char>, id: nat) -> Seq<char> {
    name + seq![':'] + decimal(id)
}

proof fn lemma_digit_char_injective(a: nat, b: nat)
    requires
        a < 10,
        b < 10,
        digit_char(a) == digit_char(b),
    ensures
        a == b,
{
}

proof fn lemma_decimal_shape(n: nat)
    ensures
        decimal(n).len() >= 1,
        n >= 10 ==> decimal(n).len() >= 2,
        forall|i: int| 0 <= i < decimal(n).len() ==> #[trigger] decimal(n)[i] != ':',
    decreases n,
{
    if n >= 10 {
        lemma_decimal_shape(n / 10);
    }
}

/// Distinct numbers have distinct decimal notations.
pub proof fn lemma_decimal_injective(a: nat, b: nat)
    requires
        decimal(a) == decimal(b),
    ensures
        a == b,
    decreases a,
{
    lemma_decimal_shape(a);
    lemma_decimal_shape(b);
    let da = decimal(a);
    if a < 10 && b < 10 {
        assert(da[0] == decimal(b)[0]);
        lemma_digit_char_injective(a, b);
    } else if a >= 10 && b >= 10 {
        let pa = decimal(a / 10);
        let pb = decimal(b / 10);
        assert(da.last() == digit_char(a % 10));
        assert(decimal(b).last() == digit_char(b % 10));
        lemma_digit_char_injective(a % 10, b % 10);
        assert(pa =~= da.drop_last());
        assert(pb =~= decimal(b).drop_last());
        lemma_decimal_injective(a / 10, b / 10);
    } else {
        assert(da.len() == decimal(b).len());
    }
}

/// A label names its contract and its identity: two labels are equal only
/// when both the names and the identities are, so distinct identities give
/// distinct labels, whatever the names.
pub proof fn lemma_label_determines_identity(n1: Seq<char>, a: nat, n2: Seq<char>, b: nat)
    requires
        label_of(n1, a) == label_of(n2, b),
    ensures
        n1 == n2,
        a == b,
{
    let l = label_of(n1, a);
    let p1 = n1 + seq![':'];
    let p2 = n2 + seq![':'];
    lemma_decimal_shape(a);
    lemma_decimal_shape(b);
    assert(l == p1 + decimal(a));
    assert(l == p2 + decimal(b));
    assert(l.len() == n1.len() + 1 + decimal(a).len());
    assert(l.len() == n2.len() + 1 + decimal(b).len());
    assert(l[n1.len() as int] == ':');
    assert(l[n2.len() as int] == ':');
    if n1.len() < n2.len() {
        assert(l[n2.len() as int] == decimal(a)[n2.len() - n1.len() - 1]);
    } else if n2.len() < n1.len() {
        assert(l[n1.len() as int] == decimal(b)[n1.len() - n2.len() - 1]);
    }
    assert(n1 =~= l.subrange(0, n1.len() as int));
    assert(n2 =~= l.subrange(0, n2.len() as int));
    assert(decimal(a) =~= l.subrange(n1.len() as int + 1, l.len() as int));
    assert(decimal(b) =~= l.subrange(n2.len() as int + 1, l.len() as int));
    lemma_decimal_injective(a, b);
}

fn digit_str(d: usize) -> (r: &'static str)
    requires
        d < 10,
    ensures
        r@ == seq![digit_char(d as nat)],
{
    proof {
        reveal_strlit("0");
        reveal_strlit("1");
        reveal_strlit("2");
        reveal_strlit("3");
        reveal_strlit("4");
        reveal_strlit("5");
        reveal_strlit("6");
        reveal_strlit("7");
        reveal_strlit("8");
        reveal_strlit("9");
    }
    if d == 0 { "0" }
    else if d == 1 { "1" }
    else if d == 2 { "2" }
    else if d == 3 { "3" }
    else if d == 4 { "4" }
    else if d == 5 { "5" }
    else if d == 6 { "6" }
    else if d == 7 { "7" }
    else if d == 8 { "8" }
    else { "9" }
}

/// Writes a number in decimal.
pub fn decimal_string(n: usize) -> (r: String)
    ensures
        r@ == decimal(n as nat),
    decreases n,
{
    if n < 10 {
        String::from_str(digit_str(n))
    } else {
        let mut s = decimal_string(n / 10);
        s.append(digit_str(n % 10));
        s
    }
}

/// Builds the label of a deployment from a contract name and an identity.
pub fn deployment_label(name: &str, id: usize) -> (r: String)
    ensures
        r@ == label_of(name@, id as nat),
{
    let digits = decimal_string(id);
    proof {
        reveal_strlit(":");
    }
    let s = String::from_str(name).concat(":");
    let r = s.concat(digits.as_str());
    assert(r@ =~= label_of(name@, id as nat));
    r
}

/// Draws a fresh identity and returns the label it gives the named contract.
pub fn fresh_label(name: &str) -> (r: (usize, String))
    ensures
        r.0 > 0,
        r.1@ == label_of(name@, r.0 as nat),
{
    let id = fresh_identity();
    (id, deployment_label(name, id))
}

} // verus!
