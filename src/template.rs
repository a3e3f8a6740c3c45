use vstd::prelude::*;

use crate::text::{chars_of, push_char};
use vstd::string::StringExecFns;

verus! {

/// `s` scanned from the left, each occurrence of `pat` replaced by `with`;
/// occurrences do not overlap.
pub open spec fn replaced(s: Seq<char>, pat: Seq<char>, with: Seq<char>) -> Seq<char>
    decreases s.len(),
{
    if s.len() == 0 {
        s
    } else if 0 < pat.len() <= s.len() && s.take(pat.len() as int) == pat {
        with + replaced(s.skip(pat.len() as int), pat, with)
    } else {
        seq![s[0]] + replaced(s.drop_first(), pat, with)
    }
}

/// Whether `pat` occurs in `s` at position `i`.
pub open spec fn occurs_at(s: Seq<char>, pat: Seq<char>, i: int) -> bool {
    0 <= i && i + pat.len() <= s.len() && s.subrange(i, i + pat.len()) == pat
}

/// The marker of a named placeholder in a template: the name in braces.
pub open spec fn placeholder(name: Seq<char>) -> Seq<char> {
    seq!['{'] + name + seq!['}']
}

/// A value for the placeholder of a name.
pub struct Binding {
    pub name: String,
    pub value: String,
}

impl View for Binding {
    type V = (Seq<char>, Seq<char>);

    open spec fn view(&self) -> (Seq<char>, Seq<char>) {
        (self.name@, self.value@)
    }
}

/// The names and values of the bindings, in order.
pub open spec fn binding_views(bs: Seq<Binding>) -> Seq<(Seq<char>, Seq<char>)> {
    bs.map_values(|b: Binding| b@)
}

/// A template with the placeholder of each binding replaced by its value, the
/// bindings taken in order.
pub open spec fn rendered(t: Seq<char>, bs: Seq<(Seq<char>, Seq<char>)>) -> Seq<char>
    decreases bs.len(),
{
    if bs.len() == 0 {
        t
    } else {
        rendered(replaced(t, placeholder(bs[0].0), bs[0].1), bs.drop_first())
    }
}

/// Whether `p` occurs in `cs` at position `i`.
fn matches_at(cs: &Vec<char>, i: usize, p: &Vec<char>) -> (r: bool)
    requires
        i <= cs@.len(),
    ensures
        r == (0 < p@.len() <= cs@.len() - i && cs@.skip(i as int).take(p@.len() as int) == p@),
{
    let n = cs.len();
    let m = p.len();
    if m == 0 || m > n - i {
        return false;
    }
    let mut k: usize = 0;
    while k < m
        invariant
            n == cs@.len(),
            m == p@.len(),
            i + m <= n,
            k <= m,
            forall|j: int| 0 <= j < k ==> cs@[i + j] == p@[j],
        decreases m - k,
    {
        if cs[i + k] != p[k] {
            assert(cs@.skip(i as int).take(m as int)[k as int] != p@[k as int]);
            assert(cs@.skip(i as int).take(m as int) != p@);
            return false;
        }
        k = k + 1;
    }
    assert(cs@.skip(i as int).take(m as int) =~= p@);
    true
}

fn replace_chars(cs: &Vec<char>, p: &Vec<char>, with: &str) -> (r: String)
    ensures
        r@ == replaced(cs@, p@, with@),
{
    let n = cs.len();
    let mut r = String::new();
    let mut i: usize = 0;
    assert(cs@.skip(0) =~= cs@);
    while i < n
        invariant
            n == cs@.len(),
            i <= n,
            r@ + replaced(cs@.skip(i as int), p@, with@) == replaced(cs@, p@, with@),
        decreases n - i,
    {
        let ghost rest = cs@.skip(i as int);
        if matches_at(cs, i, p) {
            assert(rest.skip(p@.len() as int) =~= cs@.skip(i + p@.len()));
            let ghost r0 = r@;
            r.append(with);
            assert(r@ + replaced(cs@.skip(i + p@.len()), p@, with@) =~= r0 + (with@ + replaced(
                cs@.skip(i + p@.len()),
                p@,
                with@,
            )));
            i = i + p.len();
        } else {
            assert(rest.drop_first() =~= cs@.skip(i + 1));
            let ghost r0 = r@;
            push_char(&mut r, cs[i]);
            assert(r@ + replaced(cs@.skip(i + 1), p@, with@) =~= r0 + (seq![cs@[i as int]]
                + replaced(cs@.skip(i + 1), p@, with@)));
            i = i + 1;
        }
    }
    assert(cs@.skip(n as int) =~= Seq::<char>::empty());
    assert(r@ + Seq::<char>::empty() =~= r@);
    r
}

/// Replaces each occurrence of `pat` in `s`, from the left and without
/// overlap, by `with`. An empty `pat` leaves `s` as it is.
pub fn replace_all(s: &str, pat: &str, with: &str) -> (r: String)
    ensures
        r@ == replaced(s@, pat@, with@),
{
    let cs = chars_of(s);
    let p = chars_of(pat);
    replace_chars(&cs, &p, with)
}

/// Fills a template: for each binding in turn, every occurrence of the
/// placeholder `{name}` is replaced by the value. Placeholders with no binding
/// are left as they are.
pub fn render(template: &str, bindings: &Vec<Binding>) -> (r: String)
    ensures
        r@ == rendered(template@, binding_views(bindings@)),
{
    let mut out = String::from_str(template);
    let mut i: usize = 0;
    assert(binding_views(bindings@).skip(0) =~= binding_views(bindings@));
    while i < bindings.len()
        invariant
            i <= bindings@.len(),
            rendered(out@, binding_views(bindings@).skip(i as int)) == rendered(
                template@,
                binding_views(bindings@),
            ),
        decreases bindings@.len() - i,
    {
        let b = &bindings[i];
        let name = chars_of(b.name.as_str());
        let mut p: Vec<char> = vec!['{'];
        p.append(&mut name.clone());
        p.push('}');
        assert(p@ =~= placeholder(b.name@));
        let cs = chars_of(out.as_str());
        out = replace_chars(&cs, &p, b.value.as_str());
        assert(binding_views(bindings@).skip(i as int).drop_first() =~= binding_views(
            bindings@,
        ).skip(i + 1));
        i = i + 1;
    }
    assert(binding_views(bindings@).skip(i as int) =~= Seq::<(Seq<char>, Seq<char>)>::empty());
    out
}

/// Where `pat` does not occur in `s`, replacing it changes nothing.
pub proof fn lemma_replaced_absent(s: Seq<char>, pat: Seq<char>, with: Seq<char>)
    requires
        forall|i: int| !occurs_at(s, pat, i),
    ensures
        replaced(s, pat, with) == s,
    decreases s.len(),
{
    if s.len() > 0 {
        assert(s.subrange(0, pat.len() as int) =~= s.take(pat.len() as int));
        assert(!occurs_at(s, pat, 0));
        let t = s.drop_first();
        assert forall|i: int| !occurs_at(t, pat, i) by {
            if occurs_at(t, pat, i) {
                assert(t.subrange(i, i + pat.len()) =~= s.subrange(i + 1, i + 1 + pat.len()));
                assert(occurs_at(s, pat, i + 1));
            }
        }
        lemma_replaced_absent(t, pat, with);
        assert(seq![s[0]] + t =~= s);
    }
}

/// Every occurrence of `pat` is replaced: the first one, after a text `a` in
/// which it does not start, becomes `with`, and the scan goes on after it.
pub proof fn lemma_replaced_occurrence(
    a: Seq<char>,
    pat: Seq<char>,
    b: Seq<char>,
    with: Seq<char>,
)
    requires
        pat.len() > 0,
        forall|i: int| 0 <= i < a.len() ==> !occurs_at(a + pat + b, pat, i),
    ensures
        replaced(a + pat + b, pat, with) == a + with + replaced(b, pat, with),
    decreases a.len(),
{
    let s = a + pat + b;
    if a.len() == 0 {
        assert(s =~= pat + b);
        assert(s.take(pat.len() as int) =~= pat);
        assert(s.skip(pat.len() as int) =~= b);
        assert(a + with =~= with);
    } else {
        assert(s.subrange(0, pat.len() as int) =~= s.take(pat.len() as int));
        assert(!occurs_at(s, pat, 0));
        let a1 = a.drop_first();
        assert(s.drop_first() =~= a1 + pat + b);
        assert forall|i: int| 0 <= i < a1.len() implies !occurs_at(a1 + pat + b, pat, i) by {
            if occurs_at(a1 + pat + b, pat, i) {
                assert((a1 + pat + b).subrange(i, i + pat.len()) =~= s.subrange(
                    i + 1,
                    i + 1 + pat.len(),
                ));
                assert(occurs_at(s, pat, i + 1));
            }
        }
        lemma_replaced_occurrence(a1, pat, b, with);
        assert(seq![s[0]] + (a1 + with + replaced(b, pat, with)) =~= a + with + replaced(
            b,
            pat,
            with,
        ));
    }
}

/// A template in which no bound placeholder occurs is rendered as it is, with
/// any other placeholder it holds untouched.
pub proof fn lemma_render_unbound_untouched(t: Seq<char>, bs: Seq<(Seq<char>, Seq<char>)>)
    requires
        forall|k: int, i: int| 0 <= k < bs.len() ==> !occurs_at(t, placeholder(bs[k].0), i),
    ensures
        rendered(t, bs) == t,
    decreases bs.len(),
{
    if bs.len() > 0 {
        assert forall|i: int| !occurs_at(t, placeholder(bs[0].0), i) by {
            assert(!occurs_at(t, placeholder(bs[0].0), i));
        }
        lemma_replaced_absent(t, placeholder(bs[0].0), bs[0].1);
        let rest = bs.drop_first();
        assert forall|k: int, i: int| 0 <= k < rest.len() implies !occurs_at(
            t,
            placeholder(rest[k].0),
            i,
        ) by {
            assert(rest[k] == bs[k + 1]);
            assert(!occurs_at(t, placeholder(bs[k + 1].0), i));
        }
        lemma_render_unbound_untouched(t, rest);
    }
}

} // verus!
