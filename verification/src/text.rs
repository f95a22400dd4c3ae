//! Text assembly primitives shared by all generators: decimal rendering of
//! slot indices, joining of fragments with a separator, and mapping of slot
//! texts into per-slot fragments. Every function states the exact character
//! sequence it produces.

use vstd::prelude::*;
use vstd::string::StringExecFns;

verus! {

/// The character for one decimal digit value.
pub open spec fn digit_char(d: nat) -> char {
    if d == 0 {
        '0'
    } else if d == 1 {
        '1'
    } else if d == 2 {
        '2'
    } else if d == 3 {
        '3'
    } else if d == 4 {
        '4'
    } else if d == 5 {
        '5'
    } else if d == 6 {
        '6'
    } else if d == 7 {
        '7'
    } else if d == 8 {
        '8'
    } else {
        '9'
    }
}

/// The decimal digits of `n`, most significant first, with no leading zero
/// except for `n == 0` itself.
pub open spec fn dec_digits(n: nat) -> Seq<char>
    decreases n,
{
    if n < 10 {
        seq![digit_char(n)]
    } else {
        dec_digits(n / 10) + seq![digit_char(n % 10)]
    }
}

fn digit_str(d: usize) -> (r: &'static str)
    requires
        d < 10,
    ensures
        r@ == seq![digit_char(d as nat)],
{
    proof {
        reveal_strlit("0");
        reveal_strlit("1");
        reveal_strlit("2");
        reveal_strlit("3");
        reveal_strlit("4");
        reveal_strlit("5");
        reveal_strlit("6");
        reveal_strlit("7");
        reveal_strlit("8");
        reveal_strlit("9");
    }
    let r: &'static str = if d == 0 {
        "0"
    } else if d == 1 {
        "1"
    } else if d == 2 {
        "2"
    } else if d == 3 {
        "3"
    } else if d == 4 {
        "4"
    } else if d == 5 {
        "5"
    } else if d == 6 {
        "6"
    } else if d == 7 {
        "7"
    } else if d == 8 {
        "8"
    } else {
        "9"
    };
    proof {
        assert(r@ =~= seq![digit_char(d as nat)]);
    }
    r
}

/// Renders `n` in decimal.
pub fn decimal_string(n: usize) -> (r: String)
    ensures
        r@ == dec_digits(n as nat),
    decreases n,
{
    if n < 10 {
        digit_str(n).to_owned()
    } else {
        proof {
            assert(n / 10 < n) by (nonlinear_arith)
                requires
                    n >= 10,
            ;
        }
        let mut r = decimal_string(n / 10);
        r.append(digit_str(n % 10));
        r
    }
}

/// A decimal rendering is never empty.
pub proof fn lemma_dec_digits_nonempty(n: nat)
    ensures
        dec_digits(n).len() >= 1,
{
}

/// Decimal rendering is injective: distinct numbers render as distinct
/// texts.
pub proof fn lemma_dec_digits_injective(m: nat, n: nat)
    requires
        dec_digits(m) == dec_digits(n),
    ensures
        m == n,
    decreases m,
{
    let dm = dec_digits(m);
    let dn = dec_digits(n);
    if m < 10 && n < 10 {
        assert(dm == seq![digit_char(m)]);
        assert(dn == seq![digit_char(n)]);
        assert(seq![digit_char(m)][0] == digit_char(m));
        assert(seq![digit_char(n)][0] == digit_char(n));
        assert(digit_char(m) == digit_char(n));
        assert(m == n);
    } else if m < 10 {
        lemma_dec_digits_nonempty(n / 10);
        assert(dn.len() >= 2);
        assert(dm.len() == 1);
    } else if n < 10 {
        lemma_dec_digits_nonempty(m / 10);
        assert(dm.len() >= 2);
        assert(dn.len() == 1);
    } else {
        let pm = dec_digits(m / 10);
        let pn = dec_digits(n / 10);
        assert(dm[dm.len() - 1] == digit_char(m % 10));
        assert(dn[dn.len() - 1] == digit_char(n % 10));
        assert(m % 10 == n % 10);
        assert(pm =~= dm.take(pm.len() as int));
        assert(pn =~= dn.take(pn.len() as int));
        assert(pm == pn);
        assert(m / 10 < m) by (nonlinear_arith)
            requires
                m >= 10,
        ;
        lemma_dec_digits_injective(m / 10, n / 10);
        assert(m == 10 * (m / 10) + m % 10);
        assert(n == 10 * (n / 10) + n % 10);
        assert(m == n);
    }
}

/// Appending a fixed suffix to a name is injective, so a suffix scheme such
/// as the equality generator's two-sided `_lhs` / `_rhs` binders never makes
/// two distinct slot names collide.
pub proof fn lemma_suffix_injective(x: Seq<char>, y: Seq<char>, s: Seq<char>)
    requires
        x + s == y + s,
    ensures
        x == y,
{
    assert((x + s).len() == x.len() + s.len());
    assert((y + s).len() == y.len() + s.len());
    assert(x.len() == y.len());
    assert(x =~= (x + s).take(x.len() as int));
    assert(y =~= (y + s).take(y.len() as int));
    assert((x + s).take(x.len() as int) == (y + s).take(y.len() as int));
}

/// The fragments of `parts` concatenated with `sep` between neighbours.
pub open spec fn spec_join(parts: Seq<Seq<char>>, sep: Seq<char>) -> Seq<char>
    decreases parts.len(),
{
    if parts.len() == 0 {
        Seq::empty()
    } else if parts.len() == 1 {
        parts[0]
    } else {
        parts[0] + sep + spec_join(parts.drop_first(), sep)
    }
}

/// Appending one fragment extends a join by a separator and that fragment.
pub proof fn lemma_join_push(parts: Seq<Seq<char>>, sep: Seq<char>, last: Seq<char>)
    ensures
        spec_join(parts.push(last), sep) == if parts.len() == 0 {
            last
        } else {
            spec_join(parts, sep) + sep + last
        },
    decreases parts.len(),
{
    if parts.len() == 0 {
        assert(parts.push(last)[0] == last);
    } else if parts.len() == 1 {
        let p = parts.push(last);
        assert(p[0] == parts[0]);
        assert(p.drop_first() =~= seq![last]);
        assert(spec_join(p.drop_first(), sep) == last);
        assert(spec_join(p, sep) == p[0] + sep + spec_join(p.drop_first(), sep));
    } else {
        assert(parts.push(last).drop_first() =~= parts.drop_first().push(last));
        lemma_join_push(parts.drop_first(), sep, last);
        assert(parts[0] + sep + (spec_join(parts.drop_first(), sep) + sep + last) =~= parts[0]
            + sep + spec_join(parts.drop_first(), sep) + sep + last);
    }
}

/// Joins `parts` into one text, separated by `sep`.
pub fn join(parts: &Vec<String>, sep: &str) -> (r: String)
    ensures
        r@ == spec_join(parts.deep_view(), sep@),
{
    let mut out = String::new();
    let mut i: usize = 0;
    while i < parts.len()
        invariant
            i <= parts.len(),
            out@ == spec_join(parts.deep_view().take(i as int), sep@),
        decreases parts.len() - i,
    {
        if i > 0 {
            out.append(sep);
        }
        out.append(parts[i].as_str());
        proof {
            let dv = parts.deep_view();
            lemma_join_push(dv.take(i as int), sep@, dv[i as int]);
            assert(dv.take(i + 1) =~= dv.take(i as int).push(dv[i as int]));
        }
        i += 1;
    }
    proof {
        assert(parts.deep_view().take(parts@.len() as int) =~= parts.deep_view());
    }
    out
}

/// Each element of `items` wrapped as `pre + item + post`.
pub open spec fn spec_affix(items: Seq<Seq<char>>, pre: Seq<char>, post: Seq<char>) -> Seq<
    Seq<char>,
> {
    Seq::new(items.len(), |i: int| pre + items[i] + post)
}

/// Wraps every item as `pre + item + post`.
pub fn affix_all(items: &Vec<String>, pre: &str, post: &str) -> (r: Vec<String>)
    ensures
        r.deep_view() == spec_affix(items.deep_view(), pre@, post@),
{
    let ghost target = spec_affix(items.deep_view(), pre@, post@);
    let mut out: Vec<String> = Vec::new();
    let mut i: usize = 0;
    while i < items.len()
        invariant
            i <= items.len(),
            target == spec_affix(items.deep_view(), pre@, post@),
            out@.len() == i as int,
            forall|k: int| 0 <= k < i ==> #[trigger] out@[k]@ == target[k],
        decreases items.len() - i,
    {
        let ghost pre_out = out@;
        let mut t = pre.to_owned();
        t.append(items[i].as_str());
        t.append(post);
        proof {
            assert(t@ == target[i as int]);
        }
        let ghost tstr = t;
        out.push(t);
        proof {
            assert(out@ == pre_out.push(tstr));
            assert forall|k: int| 0 <= k < i + 1 implies #[trigger] out@[k]@ == target[k] by {
                if k < i {
                    assert(out@[k] == pre_out[k]);
                } else {
                    assert(out@[k] == tstr);
                }
            }
        }
        i += 1;
    }
    proof {
        assert(out.deep_view().len() == out@.len());
        assert forall|k: int| 0 <= k < out.deep_view().len() implies out.deep_view()[k]
            == target[k] by {
            assert(out.deep_view()[k] == out@[k]@);
        }
        assert(out.deep_view() =~= target);
    }
    out
}

/// Each element of `items` wrapped as `pre + item + mid + item + post`,
/// mentioning the item twice.
pub open spec fn spec_sandwich(
    items: Seq<Seq<char>>,
    pre: Seq<char>,
    mid: Seq<char>,
    post: Seq<char>,
) -> Seq<Seq<char>> {
    Seq::new(items.len(), |i: int| pre + items[i] + mid + items[i] + post)
}

/// Wraps every item as `pre + item + mid + item + post`.
pub fn sandwich_all(items: &Vec<String>, pre: &str, mid: &str, post: &str) -> (r: Vec<String>)
    ensures
        r.deep_view() == spec_sandwich(items.deep_view(), pre@, mid@, post@),
{
    let ghost target = spec_sandwich(items.deep_view(), pre@, mid@, post@);
    let mut out: Vec<String> = Vec::new();
    let mut i: usize = 0;
    while i < items.len()
        invariant
            i <= items.len(),
            target == spec_sandwich(items.deep_view(), pre@, mid@, post@),
            out@.len() == i as int,
            forall|k: int| 0 <= k < i ==> #[trigger] out@[k]@ == target[k],
        decreases items.len() - i,
    {
        let ghost pre_out = out@;
        let mut t = pre.to_owned();
        t.append(items[i].as_str());
        t.append(mid);
        t.append(items[i].as_str());
        t.append(post);
        proof {
            assert(t@ == target[i as int]);
        }
        let ghost tstr = t;
        out.push(t);
        proof {
            assert(out@ == pre_out.push(tstr));
            assert forall|k: int| 0 <= k < i + 1 implies #[trigger] out@[k]@ == target[k] by {
                if k < i {
                    assert(out@[k] == pre_out[k]);
                } else {
                    assert(out@[k] == tstr);
                }
            }
        }
        i += 1;
    }
    proof {
        assert(out.deep_view().len() == out@.len());
        assert forall|k: int| 0 <= k < out.deep_view().len() implies out.deep_view()[k]
            == target[k] by {
            assert(out.deep_view()[k] == out@[k]@);
        }
        assert(out.deep_view() =~= target);
    }
    out
}

/// Each element of `items` extended as `item + post`.
pub open spec fn spec_suffix(items: Seq<Seq<char>>, post: Seq<char>) -> Seq<Seq<char>> {
    Seq::new(items.len(), |i: int| items[i] + post)
}

/// Extends every item as `item + post`.
pub fn suffix_all(items: &Vec<String>, post: &str) -> (r: Vec<String>)
    ensures
        r.deep_view() == spec_suffix(items.deep_view(), post@),
{
    let r = affix_all(items, "", post);
    proof {
        reveal_strlit("");
        let dv = items.deep_view();
        assert forall|k: int| 0 <= k < r.deep_view().len() implies r.deep_view()[k]
            == spec_suffix(dv, post@)[k] by {
            assert(r.deep_view()[k] == ""@ + dv[k] + post@);
            assert(""@ + dv[k] + post@ =~= dv[k] + post@);
        }
        assert(r.deep_view() =~= spec_suffix(dv, post@));
    }
    r
}

/// Each element of `items` wrapped as `item + mid + item + post`, mentioning
/// the item twice.
pub open spec fn spec_pair(items: Seq<Seq<char>>, mid: Seq<char>, post: Seq<char>) -> Seq<
    Seq<char>,
> {
    Seq::new(items.len(), |i: int| items[i] + mid + items[i] + post)
}

/// Wraps every item as `item + mid + item + post`.
pub fn pair_all(items: &Vec<String>, mid: &str, post: &str) -> (r: Vec<String>)
    ensures
        r.deep_view() == spec_pair(items.deep_view(), mid@, post@),
{
    let r = sandwich_all(items, "", mid, post);
    proof {
        reveal_strlit("");
        let dv = items.deep_view();
        assert forall|k: int| 0 <= k < r.deep_view().len() implies r.deep_view()[k]
            == spec_pair(dv, mid@, post@)[k] by {
            assert(r.deep_view()[k] == ""@ + dv[k] + mid@ + dv[k] + post@);
            assert(""@ + dv[k] + mid@ + dv[k] + post@ =~= dv[k] + mid@ + dv[k] + post@);
        }
        assert(r.deep_view() =~= spec_pair(dv, mid@, post@));
    }
    r
}

/// `n` copies of one fragment.
pub open spec fn spec_repeat(item: Seq<char>, n: nat) -> Seq<Seq<char>> {
    Seq::new(n, |i: int| item)
}

/// Builds `n` copies of `item`.
pub fn repeat_text(item: &str, n: usize) -> (r: Vec<String>)
    ensures
        r.deep_view() == spec_repeat(item@, n as nat),
{
    let ghost target = spec_repeat(item@, n as nat);
    let mut out: Vec<String> = Vec::new();
    let mut i: usize = 0;
    while i < n
        invariant
            i <= n,
            target == spec_repeat(item@, n as nat),
            out@.len() == i as int,
            forall|k: int| 0 <= k < i ==> #[trigger] out@[k]@ == target[k],
        decreases n - i,
    {
        let ghost pre_out = out@;
        let t = item.to_owned();
        proof {
            assert(t@ == target[i as int]);
        }
        let ghost tstr = t;
        out.push(t);
        proof {
            assert(out@ == pre_out.push(tstr));
            assert forall|k: int| 0 <= k < i + 1 implies #[trigger] out@[k]@ == target[k] by {
                if k < i {
                    assert(out@[k] == pre_out[k]);
                } else {
                    assert(out@[k] == tstr);
                }
            }
        }
        i += 1;
    }
    proof {
        assert(out.deep_view().len() == out@.len());
        assert forall|k: int| 0 <= k < out.deep_view().len() implies out.deep_view()[k]
            == target[k] by {
            assert(out.deep_view()[k] == out@[k]@);
        }
        assert(out.deep_view() =~= target);
    }
    out
}

} // verus!
