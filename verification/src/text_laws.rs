//! What the operations on text do to every text.
use vstd::prelude::*;

use crate::backoff::{base_delay, doubled, key_of, next_count, MAX_BACKOFF_SECS, MAX_EXPONENT};
use crate::text::{
    before, blank, decimal, decimal_int, digit, ends_with, find, first, is_space, join, lower,
    occurs, replaced, rfind, split_on, starts_with, strip_prefix, trim, trim_end, trim_end_char,
    trim_start,
};

verus! {

/// Among the ASCII characters, white space is the space and the five controls
/// from the tab to the carriage return.
pub proof fn law_ascii_space(c: char)
    requires
        (c as u32) < 128,
    ensures
        is_space(c) <==> c == ' ' || '\t' <= c <= '\r',
{
}

/// What is trimmed from a text is white space at its ends, and no white space
/// is left at either end.
pub proof fn law_trim(s: Seq<char>)
    ensures
        exists|a: int, b: int|
            0 <= a <= b <= s.len() && trim(s) == #[trigger] s.subrange(a, b) && (forall|i: int|
                0 <= i < a || b <= i < s.len() ==> is_space(#[trigger] s[i])),
        trim(s).len() > 0 ==> !is_space(trim(s)[0]) && !is_space(trim(s).last()),
{
    let u = trim_start(s);
    lemma_trim_start(s);
    lemma_trim_end(u);
    let a = s.len() - u.len();
    let b = a + trim_end(u).len();
    assert(trim(s) =~= s.subrange(a, b));
    assert forall|i: int| 0 <= i < a || b <= i < s.len() implies is_space(#[trigger] s[i]) by {
        if i >= b {
            assert(u[i - a] == s[i]);
        }
    }
    if trim(s).len() > 0 {
        assert(trim(s)[0] == u[0]);
    }
}

proof fn lemma_trim_start(s: Seq<char>)
    ensures
        trim_start(s).len() <= s.len(),
        trim_start(s) == s.skip(s.len() - trim_start(s).len()),
        forall|i: int| 0 <= i < s.len() - trim_start(s).len() ==> is_space(#[trigger] s[i]),
        trim_start(s).len() > 0 ==> !is_space(trim_start(s)[0]),
    decreases s.len(),
{
    if s.len() > 0 && is_space(s[0]) {
        let r = s.skip(1);
        lemma_trim_start(r);
        assert(trim_start(s) =~= s.skip(s.len() - trim_start(s).len()));
        assert forall|i: int| 0 <= i < s.len() - trim_start(s).len() implies is_space(
            #[trigger] s[i],
        ) by {
            if i > 0 {
                assert(r[i - 1] == s[i]);
            }
        }
    } else {
        assert(s.skip(0) =~= s);
    }
}

proof fn lemma_trim_end(s: Seq<char>)
    ensures
        trim_end(s).len() <= s.len(),
        trim_end(s) == s.take(trim_end(s).len() as int),
        forall|i: int| trim_end(s).len() <= i < s.len() ==> is_space(#[trigger] s[i]),
        trim_end(s).len() > 0 ==> !is_space(trim_end(s).last()),
    decreases s.len(),
{
    if s.len() > 0 && is_space(s.last()) {
        let r = s.drop_last();
        lemma_trim_end(r);
        assert(trim_end(s) =~= s.take(trim_end(s).len() as int));
        assert forall|i: int| trim_end(s).len() <= i < s.len() implies is_space(#[trigger] s[i]) by {
            if i < r.len() {
                assert(r[i] == s[i]);
            }
        }
    } else {
        assert(s.take(s.len() as int) =~= s);
    }
}

/// A text is blank exactly when all of it is white space.
pub proof fn law_blank(s: Seq<char>)
    ensures
        blank(s) <==> forall|i: int| 0 <= i < s.len() ==> is_space(#[trigger] s[i]),
{
    law_trim(s);
    let (a, b) = choose|a: int, b: int|
        0 <= a <= b <= s.len() && trim(s) == #[trigger] s.subrange(a, b) && (forall|i: int|
            0 <= i < a || b <= i < s.len() ==> is_space(#[trigger] s[i]));
    if trim(s).len() > 0 {
        assert(trim(s)[0] == s[a]);
    }
}

/// Only the given character is cut off the end of a text, and all of it is.
pub proof fn law_trim_end_char(s: Seq<char>, c: char)
    ensures
        trim_end_char(s, c).len() <= s.len(),
        trim_end_char(s, c) == s.take(trim_end_char(s, c).len() as int),
        forall|i: int| trim_end_char(s, c).len() <= i < s.len() ==> #[trigger] s[i] == c,
        trim_end_char(s, c).len() > 0 ==> trim_end_char(s, c).last() != c,
    decreases s.len(),
{
    if s.len() > 0 && s.last() == c {
        let r = s.drop_last();
        law_trim_end_char(r, c);
        assert(trim_end_char(s, c) =~= s.take(trim_end_char(s, c).len() as int));
        assert forall|i: int| trim_end_char(s, c).len() <= i < s.len() implies #[trigger] s[i]
            == c by {
            if i < r.len() {
                assert(r[i] == s[i]);
            }
        }
    } else {
        assert(s.take(s.len() as int) =~= s);
    }
}

/// The pieces of a text, joined by the separator again, are the text, and no
/// piece holds the separator.
pub proof fn law_split_and_join(s: Seq<char>, c: char)
    ensures
        split_on(s, c).len() > 0,
        join(split_on(s, c), seq![c]) == s,
        forall|i: int| 0 <= i < split_on(s, c).len() ==> !(#[trigger] split_on(s, c)[i]).contains(c),
    decreases s.len(),
{
    if s.len() > 0 {
        let r = s.drop_last();
        let was = split_on(r, c);
        let now = split_on(s, c);
        law_split_and_join(r, c);
        if s.last() == c {
            assert(now.drop_last() =~= was);
            assert(join(now, seq![c]) =~= s);
            assert(!Seq::<char>::empty().contains(c));
        } else {
            assert(now.drop_last() =~= was.drop_last());
            assert(now.last() == was.last().push(s.last()));
            if was.len() > 1 {
                assert(join(now, seq![c]) =~= join(was, seq![c]).push(s.last()));
            } else {
                assert(join(now, seq![c]) =~= join(was, seq![c]).push(s.last()));
            }
            assert(r.push(s.last()) =~= s);
            assert forall|i: int| 0 <= i < now.len() implies !(#[trigger] now[i]).contains(c) by {
                if i < now.len() - 1 {
                    assert(now[i] == was[i]);
                } else {
                    assert(!was[was.len() - 1].contains(c));
                    if now[i].contains(c) {
                        let k = choose|k: int| 0 <= k < now[i].len() && now[i][k] == c;
                        assert(was.last()[k] == c);
                    }
                }
            }
        }
    } else {
        assert(split_on(s, c)[0] =~= Seq::<char>::empty());
        assert(join(split_on(s, c), seq![c]) =~= s);
    }
}

/// A text of many parts is the parts before the last, the separator and the
/// last; one of a single part is that part.
pub proof fn law_join(parts: Seq<Seq<char>>, last: Seq<char>, sep: Seq<char>)
    ensures
        parts.len() > 0 ==> join(parts.push(last), sep) == join(parts, sep) + sep + last,
        join(seq![last], sep) == last,
        join(Seq::<Seq<char>>::empty(), sep).len() == 0,
{
    assert(parts.push(last).drop_last() =~= parts);
}

/// The first place of a character holds it and no place before does; the last
/// place holds it and no place after does; there is none exactly when the text
/// does not hold it.
pub proof fn law_find(s: Seq<char>, c: char)
    ensures
        match find(s, c) {
            Some(i) => 0 <= i < s.len() && s[i] == c && forall|j: int| 0 <= j < i ==> s[j] != c,
            None => !s.contains(c),
        },
        match rfind(s, c) {
            Some(i) => 0 <= i < s.len() && s[i] == c && forall|j: int|
                i < j < s.len() ==> s[j] != c,
            None => !s.contains(c),
        },
    decreases s.len(),
{
    if s.len() > 0 {
        law_find(s.drop_last(), c);
        assert forall|j: int| 0 <= j < s.len() - 1 implies s[j] == s.drop_last()[j] by {}
        if s.contains(c) && s.last() != c {
            let k = choose|k: int| 0 <= k < s.len() && s[k] == c;
            assert(s.drop_last()[k] == c);
        }
    }
}

/// A text begins with what is put before it, which is also what is taken off,
/// ends with what is put behind it, and holds what stands inside it.
pub proof fn law_parts_are_found(a: Seq<char>, p: Seq<char>, b: Seq<char>)
    ensures
        starts_with(p + b, p),
        strip_prefix(p + b, p) == Some(b),
        ends_with(a + p, p),
        occurs(a + p + b, p),
{
    assert((p + b).take(p.len() as int) =~= p);
    assert((p + b).skip(p.len() as int) =~= b);
    assert((a + p).skip(a.len() as int) =~= p);
    assert((a + p + b).subrange(a.len() as int, (a.len() + p.len()) as int) =~= p);
}

/// A text that begins with another, ends with it or holds it is made of it and
/// of what stands around.
pub proof fn law_found_parts_are_there(s: Seq<char>, p: Seq<char>)
    ensures
        starts_with(s, p) ==> strip_prefix(s, p) is Some && s == p + strip_prefix(s, p)->0,
        !starts_with(s, p) ==> strip_prefix(s, p) is None,
        ends_with(s, p) ==> exists|a: Seq<char>| s == #[trigger] (a + p),
        occurs(s, p) ==> exists|a: Seq<char>, b: Seq<char>| s == #[trigger] (a + p + b),
{
    if starts_with(s, p) {
        assert(s =~= p + s.skip(p.len() as int));
    }
    if ends_with(s, p) {
        let a = s.take(s.len() - p.len());
        assert(s =~= a + p);
    }
    if occurs(s, p) {
        let i = choose|i: int|
            0 <= i <= s.len() - p.len() && #[trigger] s.subrange(i, i + p.len()) == p;
        let a = s.take(i);
        let b = s.skip(i + p.len());
        assert(s =~= a + s.subrange(i, i + p.len()) + b);
        assert(s == a + p + b);
    }
}

/// Lowering a text lowers its ASCII capitals and nothing else.
pub proof fn law_lower(s: Seq<char>)
    ensures
        lower(s).len() == s.len(),
        forall|i: int|
            0 <= i < s.len() ==> if 'A' <= #[trigger] s[i] <= 'Z' {
                'a' <= lower(s)[i] <= 'z' && lower(s)[i] as u32 - 'a' as u32 == s[i] as u32
                    - 'A' as u32
            } else {
                lower(s)[i] == s[i]
            },
        lower(lower(s)) == lower(s),
{
    assert(lower(lower(s)) =~= lower(s));
}

/// The number that a text of digits stands for.
pub open spec fn number(s: Seq<char>) -> int
    decreases s.len(),
{
    if s.len() == 0 {
        0
    } else {
        10 * number(s.drop_last()) + (s.last() as int - '0' as int)
    }
}

/// The text of a number is made of digits, stands for that number and has no
/// leading zero but in zero itself.
pub proof fn law_decimal(n: nat)
    ensures
        number(decimal(n)) == n,
        decimal(n).len() > 0,
        forall|i: int| 0 <= i < decimal(n).len() ==> '0' <= #[trigger] decimal(n)[i] <= '9',
        n > 0 ==> decimal(n)[0] != '0',
    decreases n,
{
    if n < 10 {
        assert(decimal(n).drop_last() =~= Seq::empty());
        assert(decimal(n).last() == digit(n));
        reveal_with_fuel(number, 2);
    } else {
        law_decimal(n / 10);
        assert(decimal(n).drop_last() =~= decimal(n / 10));
        assert(decimal(n).last() == digit(n % 10));
        assert forall|i: int| 0 <= i < decimal(n).len() implies '0' <= #[trigger] decimal(n)[i]
            <= '9' by {
            if i < decimal(n).len() - 1 {
                assert(decimal(n)[i] == decimal(n / 10)[i]);
            }
        }
    }
}

/// A negative number has a minus before the text of its size; any other has
/// none.
pub proof fn law_decimal_int(i: int)
    ensures
        i < 0 ==> decimal_int(i).len() > 1 && decimal_int(i)[0] == '-' && number(
            decimal_int(i).skip(1),
        ) == -i,
        i >= 0 ==> number(decimal_int(i)) == i && decimal_int(i)[0] != '-',
{
    if i < 0 {
        law_decimal((-i) as nat);
        assert(decimal_int(i).skip(1) =~= decimal((-i) as nat));
    } else {
        law_decimal(i as nat);
        assert('0' <= decimal(i as nat)[0]);
    }
}

/// A text comes before another exactly when it is a part that the other goes
/// on from, or has the lesser character at the first place where they differ.
pub proof fn law_before(a: Seq<char>, b: Seq<char>)
    ensures
        before(a, b) <==> {
            ||| a.len() < b.len() && a == b.take(a.len() as int)
            ||| exists|i: int|
                0 <= i < a.len() && i < b.len() && a.take(i) == b.take(i) && #[trigger] a[i] < b[i]
        },
    decreases a.len(),
{
    if a.len() > 0 && b.len() > 0 {
        let x = a.skip(1);
        let y = b.skip(1);
        law_before(x, y);
        if a[0] == b[0] {
            if before(a, b) {
                if x.len() < y.len() && x == y.take(x.len() as int) {
                    assert forall|k: int| 0 <= k < a.len() implies a[k] == b[k] by {
                        if k > 0 {
                            assert(x[k - 1] == y.take(x.len() as int)[k - 1]);
                        }
                    }
                    assert(a =~= b.take(a.len() as int));
                } else {
                    let i = choose|i: int|
                        0 <= i < x.len() && i < y.len() && x.take(i) == y.take(i) && #[trigger] x[i]
                            < y[i];
                    assert forall|k: int| 0 <= k < i + 1 implies a[k] == b[k] by {
                        if k > 0 {
                            assert(x.take(i)[k - 1] == y.take(i)[k - 1]);
                        }
                    }
                    assert(a.take(i + 1) =~= b.take(i + 1));
                    assert(a[i + 1] == x[i] && b[i + 1] == y[i]);
                }
            }
            if a.len() < b.len() && a == b.take(a.len() as int) {
                assert forall|k: int| 0 <= k < x.len() implies x[k] == y[k] by {
                    assert(a[k + 1] == b.take(a.len() as int)[k + 1]);
                }
                assert(x =~= y.take(x.len() as int));
            }
            if exists|i: int|
                0 <= i < a.len() && i < b.len() && a.take(i) == b.take(i) && #[trigger] a[i]
                    < b[i] {
                let i = choose|i: int|
                    0 <= i < a.len() && i < b.len() && a.take(i) == b.take(i) && #[trigger] a[i]
                        < b[i];
                assert forall|k: int| 0 <= k < i - 1 implies x[k] == y[k] by {
                    assert(a.take(i)[k + 1] == b.take(i)[k + 1]);
                }
                assert(x.take(i - 1) =~= y.take(i - 1));
                assert(x[i - 1] == a[i] && y[i - 1] == b[i]);
            }
        } else {
            assert(a.take(0) =~= b.take(0));
            if a.len() < b.len() && a == b.take(a.len() as int) {
                assert(a[0] == b.take(a.len() as int)[0]);
            }
            if exists|i: int|
                0 <= i < a.len() && i < b.len() && a.take(i) == b.take(i) && #[trigger] a[i]
                    < b[i] {
                let i = choose|i: int|
                    0 <= i < a.len() && i < b.len() && a.take(i) == b.take(i) && #[trigger] a[i]
                        < b[i];
                if i > 0 {
                    assert(a.take(i)[0] == b.take(i)[0]);
                }
            }
        }
    } else if a.len() == 0 {
        assert(b.take(0) =~= a);
    }
}

/// A replacement is made wherever the old character stands, and nowhere else.
pub proof fn law_replaced(s: Seq<char>, from: char, to: char)
    ensures
        replaced(s, from, to).len() == s.len(),
        forall|i: int|
            0 <= i < s.len() ==> #[trigger] replaced(s, from, to)[i] == if s[i] == from {
                to
            } else {
                s[i]
            },
{
}

/// The first characters are a part that the text goes on from: as many as
/// asked for, or all there are.
pub proof fn law_first(s: Seq<char>, n: nat)
    ensures
        starts_with(s, first(s, n)),
        first(s, n).len() <= n,
        first(s, n).len() == n || first(s, n) == s,
{
    assert(s.take(s.len() as int) =~= s);
    assert(starts_with(s, first(s, n)));
}

/// The delay is at its ceiling from the last doubling on, a count grows with
/// every failure until it cannot, and the delay is a power of two of the first.
pub proof fn law_delay_reaches_the_ceiling(count: u32)
    ensures
        count >= MAX_EXPONENT ==> base_delay(count) == MAX_BACKOFF_SECS,
        count < MAX_EXPONENT ==> base_delay(count) == base_delay(0) * doubled(count as nat),
        count < u32::MAX ==> next_count(count) == count + 1,
        next_count(u32::MAX) == u32::MAX,
{
    reveal_with_fuel(doubled, 7);
}

/// The keys of two resources differ wherever their controllers, namespaces or
/// names do, as long as none of these holds a slash.
pub proof fn law_resources_have_their_own_keys(
    c: Seq<char>,
    ns: Seq<char>,
    n: Seq<char>,
    d: Seq<char>,
    nt: Seq<char>,
    m: Seq<char>,
)
    requires
        !c.contains('/') && !ns.contains('/') && !n.contains('/'),
        !d.contains('/') && !nt.contains('/') && !m.contains('/'),
        key_of(c, ns, n) == key_of(d, nt, m),
    ensures
        c == d && ns == nt && n == m,
{
    reveal_strlit("/");
    assert("/"@ =~= seq!['/']);
    let x = if ns.len() == 0 {
        n
    } else {
        ns + "/"@ + n
    };
    let y = if nt.len() == 0 {
        m
    } else {
        nt + "/"@ + m
    };
    assert(key_of(c, ns, n) =~= c + seq!['/'] + x);
    assert(key_of(d, nt, m) =~= d + seq!['/'] + y);
    lemma_slash(c, x, d, y);
    if ns.len() > 0 && nt.len() > 0 {
        lemma_slash(ns, n, nt, m);
    } else if ns.len() > 0 {
        assert(x[ns.len() as int] == '/');
        assert(m.contains('/'));
    } else if nt.len() > 0 {
        assert(y[nt.len() as int] == '/');
        assert(n.contains('/'));
    } else {
        assert(ns =~= nt);
    }
}

proof fn lemma_slash(a: Seq<char>, x: Seq<char>, b: Seq<char>, y: Seq<char>)
    requires
        !a.contains('/'),
        !b.contains('/'),
        a + seq!['/'] + x == b + seq!['/'] + y,
    ensures
        a == b,
        x == y,
{
    let s = a + seq!['/'] + x;
    let t = b + seq!['/'] + y;
    if a.len() < b.len() {
        assert(s[a.len() as int] == '/');
        assert(t[a.len() as int] == b[a.len() as int]);
    }
    if b.len() < a.len() {
        assert(t[b.len() as int] == '/');
        assert(s[b.len() as int] == a[b.len() as int]);
    }
    assert(a =~= s.take(a.len() as int));
    assert(b =~= t.take(b.len() as int));
    assert(x =~= s.skip(a.len() + 1int));
    assert(y =~= t.skip(b.len() + 1int));
}

} // verus!
