//! HTTP/1.1 rules on headers: which response signals an upgrade, and which
//! headers belong to one connection only.
use vstd::prelude::*;

verus! {

/// One header field, name and value as bytes.
#[derive(Clone, Debug, PartialEq, Eq)]
pub struct Header {
    pub name: Vec<u8>,
    pub value: Vec<u8>,
}

impl Header {
    pub fn new(name: Vec<u8>, value: Vec<u8>) -> (r: Header)
        ensures
            r.name@ == name@,
            r.value@ == value@,
    {
        Header { name, value }
    }
}

pub open spec fn lower(b: u8) -> u8 {
    if 65 <= b <= 90 {
        (b + 32) as u8
    } else {
        b
    }
}

/// Equal up to the case of ASCII letters.
pub open spec fn eq_ignore_case(a: Seq<u8>, b: Seq<u8>) -> bool {
    &&& a.len() == b.len()
    &&& forall|i: int| 0 <= i < a.len() ==> lower(#[trigger] a[i]) == lower(b[i])
}

pub open spec fn is_ws(b: u8) -> bool {
    b == 32 || b == 9
}

/// A header value that reads as text: visible ASCII and tabs.
pub open spec fn is_text(v: Seq<u8>) -> bool {
    forall|i: int| 0 <= i < v.len() ==> (#[trigger] v[i] == 9 || (32 <= v[i] && v[i] < 127))
}

/// `v[i..j]` is one element of the comma-separated list `v`.
pub open spec fn element(v: Seq<u8>, i: int, j: int) -> bool {
    &&& 0 <= i <= j <= v.len()
    &&& i == 0 || v[i - 1] == 44
    &&& j == v.len() || v[j] == 44
    &&& forall|k: int| i <= k < j ==> #[trigger] v[k] != 44
}

/// `v[a..b]` is the element `v[i..j]` without the blanks around it.
pub open spec fn trimmed(v: Seq<u8>, i: int, j: int, a: int, b: int) -> bool {
    &&& i <= a <= b <= j
    &&& forall|k: int| i <= k < a ==> is_ws(#[trigger] v[k])
    &&& forall|k: int| b <= k < j ==> is_ws(#[trigger] v[k])
    &&& a < b ==> !is_ws(v[a]) && !is_ws(v[b - 1])
}

/// The comma-separated list `v` names the header `name`.
pub open spec fn lists(v: Seq<u8>, name: Seq<u8>) -> bool {
    &&& name.len() > 0
    &&& exists|i: int, j: int, a: int, b: int|
        element(v, i, j) && #[trigger] trimmed(v, i, j, a, b) && eq_ignore_case(v.subrange(a, b), name)
}

pub open spec fn connection_name() -> Seq<u8> {
    seq![99u8, 111, 110, 110, 101, 99, 116, 105, 111, 110]
}

pub open spec fn keep_alive_name() -> Seq<u8> {
    seq![107u8, 101, 101, 112, 45, 97, 108, 105, 118, 101]
}

pub open spec fn proxy_connection_name() -> Seq<u8> {
    seq![112u8, 114, 111, 120, 121, 45, 99, 111, 110, 110, 101, 99, 116, 105, 111, 110]
}

pub open spec fn upgrade_name() -> Seq<u8> {
    seq![117u8, 112, 103, 114, 97, 100, 101]
}

/// Headers that are always taken to be about one connection only.
pub open spec fn is_hop_name(name: Seq<u8>) -> bool {
    ||| eq_ignore_case(name, connection_name())
    ||| eq_ignore_case(name, keep_alive_name())
    ||| eq_ignore_case(name, proxy_connection_name())
    ||| eq_ignore_case(name, upgrade_name())
}

/// Header `k` is the first `Connection` header of `hs`.
pub open spec fn first_connection(hs: Seq<Header>, k: int) -> bool {
    &&& 0 <= k < hs.len()
    &&& eq_ignore_case(hs[k].name@, connection_name())
    &&& forall|m: int| 0 <= m < k ==> !eq_ignore_case(#[trigger] hs[m].name@, connection_name())
}

/// Whether stripping the connection headers of `hs` removes a header named
/// `name`: one of the fixed names, or one that the first `Connection`
/// header lists, when its value is text.
pub open spec fn is_connection_header(hs: Seq<Header>, name: Seq<u8>) -> bool {
    ||| is_hop_name(name)
    ||| exists|k: int| #[trigger] first_connection(hs, k) && is_text(hs[k].value@) && lists(hs[k].value@, name)
}

pub open spec fn stripped(hs: Seq<Header>) -> Seq<Header> {
    hs.filter(|h: Header| !is_connection_header(hs, h.name@))
}

/// After stripping, no header is about the connection only; in particular
/// none has one of the fixed names.
pub proof fn lemma_stripped_has_no_connection_header(hs: Seq<Header>)
    ensures
        forall|i: int|
            0 <= i < stripped(hs).len() ==> !is_connection_header(hs, #[trigger] stripped(hs)[i].name@),
        forall|i: int| 0 <= i < stripped(hs).len() ==> !is_hop_name(#[trigger] stripped(hs)[i].name@),
{
    hs.filter_lemma(|h: Header| !is_connection_header(hs, h.name@));
}

fn to_lower(b: u8) -> (r: u8)
    ensures
        r == lower(b),
{
    if 65 <= b && b <= 90 {
        b + 32
    } else {
        b
    }
}

/// Compares `v[a..b]` with `name` up to case.
fn eq_ignore_case_at(v: &Vec<u8>, a: usize, b: usize, name: &Vec<u8>) -> (r: bool)
    requires
        a <= b <= v@.len(),
    ensures
        r == eq_ignore_case(v@.subrange(a as int, b as int), name@),
{
    if b - a != name.len() {
        return false;
    }
    let mut i: usize = 0;
    while i < name.len()
        invariant
            b - a == name@.len(),
            a <= b <= v@.len(),
            i <= name@.len(),
            forall|m: int| 0 <= m < i ==> lower(v@[a + m]) == lower(name@[m]),
        decreases name@.len() - i,
    {
        if to_lower(v[a + i]) != to_lower(name[i]) {
            assert(lower(v@.subrange(a as int, b as int)[i as int]) != lower(name@[i as int]));
            return false;
        }
        i = i + 1;
    }
    proof {
        assert forall|m: int| 0 <= m < v@.subrange(a as int, b as int).len() implies lower(
            #[trigger] v@.subrange(a as int, b as int)[m],
        ) == lower(name@[m]) by {
            assert(v@.subrange(a as int, b as int)[m] == v@[a + m]);
        }
    }
    true
}

fn eq_name(name: &Vec<u8>, expected: &Vec<u8>) -> (r: bool)
    ensures
        r == eq_ignore_case(name@, expected@),
{
    let r = eq_ignore_case_at(name, 0, name.len(), expected);
    proof {
        assert(name@.subrange(0, name@.len() as int) =~= name@);
    }
    r
}

fn is_text_value(v: &Vec<u8>) -> (r: bool)
    ensures
        r == is_text(v@),
{
    let mut i: usize = 0;
    while i < v.len()
        invariant
            i <= v@.len(),
            forall|m: int| 0 <= m < i ==> (#[trigger] v@[m] == 9 || (32 <= v@[m] && v@[m] < 127)),
        decreases v@.len() - i,
    {
        let c = v[i];
        if !(c == 9 || (32 <= c && c < 127)) {
            return false;
        }
        i = i + 1;
    }
    true
}

/// Whether the comma-separated list `v` names the header `name`.
fn lists_name(v: &Vec<u8>, name: &Vec<u8>) -> (r: bool)
    ensures
        r == lists(v@, name@),
{
    if name.len() == 0 {
        return false;
    }
    let n = v.len();
    let mut i: usize = 0;
    loop
        invariant
            n == v@.len(),
            name@.len() > 0,
            i <= n,
            i == 0 || v@[i - 1] == 44,
            forall|i2: int, j2: int, a2: int, b2: int|
                i2 < i && element(v@, i2, j2) && #[trigger] trimmed(v@, i2, j2, a2, b2) ==> !eq_ignore_case(
                    v@.subrange(a2, b2),
                    name@,
                ),
        decreases n - i,
    {
        let mut j: usize = i;
        while j < n && v[j] != 44
            invariant
                i <= j <= n,
                n == v@.len(),
                forall|k: int| i <= k < j ==> #[trigger] v@[k] != 44,
            decreases n - j,
        {
            j = j + 1;
        }
        let mut a: usize = i;
        while a < j && (v[a] == 32 || v[a] == 9)
            invariant
                i <= a <= j <= n,
                n == v@.len(),
                forall|k: int| i <= k < a ==> is_ws(#[trigger] v@[k]),
            decreases j - a,
        {
            a = a + 1;
        }
        let mut b: usize = j;
        while b > a && (v[b - 1] == 32 || v[b - 1] == 9)
            invariant
                i <= a <= b <= j <= n,
                n == v@.len(),
                forall|k: int| b <= k < j ==> is_ws(#[trigger] v@[k]),
            decreases b - a,
        {
            b = b - 1;
        }
        assert(element(v@, i as int, j as int));
        assert(trimmed(v@, i as int, j as int, a as int, b as int));
        if eq_ignore_case_at(v, a, b, name) {
            return true;
        }
        proof {
            assert forall|i2: int, j2: int, a2: int, b2: int|
                i2 <= i && element(v@, i2, j2) && #[trigger] trimmed(v@, i2, j2, a2, b2) implies !eq_ignore_case(
                v@.subrange(a2, b2),
                name@,
            ) by {
                if i2 == i && eq_ignore_case(v@.subrange(a2, b2), name@) {
                    if j2 < j {
                        assert(v@[j2] == 44);
                    }
                    if j2 > j {
                        assert(v@[j as int] == 44);
                    }
                    assert(j2 == j);
                    assert(a2 < b2);
                    if a2 < a {
                        assert(is_ws(v@[a2]));
                    }
                    if a2 > a {
                        assert(is_ws(v@[a as int]));
                    }
                    if b2 > b {
                        assert(is_ws(v@[b2 - 1]));
                    }
                    if b2 < b {
                        assert(is_ws(v@[b - 1]));
                    }
                    assert(a2 == a && b2 == b);
                }
            }
        }
        if j == n {
            return false;
        }
        i = j + 1;
    }
}

fn connection_bytes() -> (r: Vec<u8>)
    ensures
        r@ == connection_name(),
{
    let r = vec![99u8, 111, 110, 110, 101, 99, 116, 105, 111, 110];
    assert(r@ =~= connection_name());
    r
}

fn is_hop(name: &Vec<u8>) -> (r: bool)
    ensures
        r == is_hop_name(name@),
{
    let keep_alive = vec![107u8, 101, 101, 112, 45, 97, 108, 105, 118, 101];
    assert(keep_alive@ =~= keep_alive_name());
    let proxy_connection = vec![112u8, 114, 111, 120, 121, 45, 99, 111, 110, 110, 101, 99, 116, 105, 111, 110];
    assert(proxy_connection@ =~= proxy_connection_name());
    let upgrade = vec![117u8, 112, 103, 114, 97, 100, 101];
    assert(upgrade@ =~= upgrade_name());
    eq_name(name, &connection_bytes()) || eq_name(name, &keep_alive) || eq_name(name, &proxy_connection)
        || eq_name(name, &upgrade)
}

/// Removes the headers that are about this connection only: `Connection`,
/// `Keep-Alive`, `Proxy-Connection`, `Upgrade`, and those that the first
/// `Connection` header lists. The others keep their order.
pub fn strip_connection_headers(headers: &mut Vec<Header>)
    ensures
        final(headers)@ == stripped(old(headers)@),
{
    let ghost hs = old(headers)@;
    let conn = connection_bytes();
    let n = headers.len();
    let mut k: usize = 0;
    while k < n && !eq_name(&headers[k].name, &conn)
        invariant
            headers@ == hs,
            n == hs.len(),
            conn@ == connection_name(),
            k <= n,
            forall|m: int| 0 <= m < k ==> !eq_ignore_case(#[trigger] hs[m].name@, connection_name()),
        decreases n - k,
    {
        k = k + 1;
    }
    let listing: Option<Vec<u8>> = if k < n && is_text_value(&headers[k].value) {
        Some(headers[k].value.clone())
    } else {
        None
    };
    proof {
        if k < n {
            assert(first_connection(hs, k as int));
        }
        assert forall|k2: int| #[trigger] first_connection(hs, k2) implies k2 == k by {
            if k2 < k {
                assert(!eq_ignore_case(hs[k2].name@, connection_name()));
            }
            if k2 > k {
                assert(!eq_ignore_case(hs[k as int].name@, connection_name()));
            }
        }
    }
    let ghost pred = |h: Header| !is_connection_header(hs, h.name@);
    let mut rest: Vec<Header> = Vec::new();
    std::mem::swap(&mut rest, headers);
    let mut i: usize = 0;
    while i < n
        invariant
            n == hs.len(),
            i <= n,
            rest@ == hs.subrange(i as int, n as int),
            headers@ == hs.subrange(0, i as int).filter(pred),
            pred == (|h: Header| !is_connection_header(hs, h.name@)),
            listing matches Some(l) ==> k < n && first_connection(hs, k as int) && l@ == hs[k as int].value@
                && is_text(l@),
            listing is None ==> forall|k2: int| #[trigger] first_connection(hs, k2) ==> !is_text(hs[k2].value@),
        decreases n - i,
    {
        let h = rest.remove(0);
        assert(h == hs[i as int]);
        let dropped = is_hop(&h.name) || match &listing {
            Some(l) => lists_name(l, &h.name),
            None => false,
        };
        proof {
            if listing is None {
                assert(dropped == is_connection_header(hs, h.name@));
            } else {
                assert(dropped == is_connection_header(hs, h.name@));
            }
            reveal(Seq::filter);
            assert(hs.subrange(0, i + 1).drop_last() =~= hs.subrange(0, i as int));
        }
        if !dropped {
            headers.push(h);
        }
        i = i + 1;
        proof {
            assert(rest@ =~= hs.subrange(i as int, n as int));
        }
    }
    proof {
        assert(hs.subrange(0, n as int) =~= hs);
    }
}

} // verus!
