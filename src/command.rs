use vstd::prelude::*;
use vstd::string::{StrSliceExecFns, StringExecFns};

use smallvec::SmallVec;

verus! {

/// The token in a template argument that stands for the clipboard text.
pub const PLACEHOLDER: &'static str = "{text}";

/// `s` with every occurrence of `pat` replaced by `with`, occurrences taken
/// from the left and without overlap. An empty pattern leaves `s` as it is.
pub open spec fn replaced(s: Seq<char>, pat: Seq<char>, with: Seq<char>) -> Seq<char>
    decreases s.len(),
{
    if s.len() == 0 || pat.len() == 0 {
        s
    } else if pat.len() <= s.len() && s.subrange(0, pat.len() as int) == pat {
        with + replaced(s.subrange(pat.len() as int, s.len() as int), pat, with)
    } else {
        seq![s[0]] + replaced(s.subrange(1, s.len() as int), pat, with)
    }
}

/// Whether `pat` occurs somewhere in `s`.
pub open spec fn contains(s: Seq<char>, pat: Seq<char>) -> bool {
    exists|i: int| 0 <= i && i + pat.len() <= s.len() && #[trigger] s.subrange(i, i + pat.len()) == pat
}

/// An argument in which the placeholder does not occur passes through
/// substitution unchanged, whatever the text.
pub proof fn lemma_argument_without_placeholder_unchanged(
    s: Seq<char>,
    pat: Seq<char>,
    with: Seq<char>,
)
    requires
        !contains(s, pat),
    ensures
        replaced(s, pat, with) == s,
    decreases s.len(),
{
    if s.len() > 0 && pat.len() > 0 {
        let rest = s.subrange(1, s.len() as int);
        if pat.len() <= s.len() {
            assert(s.subrange(0, 0 + pat.len() as int) != pat);
            assert(s.subrange(0, pat.len() as int) != pat);
        }
        assert forall|i: int|
            0 <= i && i + pat.len() <= rest.len() implies #[trigger] rest.subrange(i, i + pat.len())
            != pat by {
            assert(rest.subrange(i, i + pat.len()) =~= s.subrange(i + 1, i + 1 + pat.len()));
        }
        lemma_argument_without_placeholder_unchanged(rest, pat, with);
        assert(seq![s[0]] + rest =~= s);
    }
}

/// A placeholder at the start of an argument becomes the text, and the rest
/// of the argument is substituted on its own; an argument that is just the
/// placeholder becomes exactly the text.
pub proof fn lemma_leading_placeholder(pat: Seq<char>, rest: Seq<char>, with: Seq<char>)
    requires
        pat.len() > 0,
    ensures
        replaced(pat + rest, pat, with) == with + replaced(rest, pat, with),
        replaced(pat, pat, with) == with,
{
    let s = pat + rest;
    assert(s.subrange(0, pat.len() as int) =~= pat);
    assert(s.subrange(pat.len() as int, s.len() as int) =~= rest);
    assert(pat.subrange(0, pat.len() as int) =~= pat);
    assert(pat.subrange(pat.len() as int, pat.len() as int) =~= Seq::<char>::empty());
    assert(replaced(Seq::<char>::empty(), pat, with) == Seq::<char>::empty());
    assert(with + Seq::<char>::empty() =~= with);
}

/// Whether `pat` occurs in `s` starting at character `i`.
fn occurs_at(s: &str, n: usize, i: usize, pat: &str, m: usize) -> (r: bool)
    requires
        n == s@.len(),
        m == pat@.len(),
        i <= n,
    ensures
        r == (i + m <= n && s@.subrange(i as int, i + m) == pat@),
{
    if m > n - i {
        return false;
    }
    let mut k: usize = 0;
    while k < m
        invariant
            k <= m,
            i + m <= n,
            n == s@.len(),
            m == pat@.len(),
            forall|j: int| 0 <= j < k ==> s@[i + j] == pat@[j],
        decreases m - k,
    {
        if s.get_char(i + k) != pat.get_char(k) {
            assert(s@.subrange(i as int, i + m)[k as int] != pat@[k as int]);
            return false;
        }
        k = k + 1;
    }
    assert(s@.subrange(i as int, i + m) =~= pat@);
    true
}

/// Replaces every occurrence of `pat` in `s` by `with`.
pub fn replace_all(s: &str, pat: &str, with: &str) -> (r: String)
    requires
        pat@.len() > 0,
    ensures
        r@ == replaced(s@, pat@, with@),
{
    let n = s.unicode_len();
    let m = pat.unicode_len();
    let mut out = String::new();
    let mut i: usize = 0;
    assert(s@.subrange(0, n as int) =~= s@);
    assert(out@ + replaced(s@, pat@, with@) =~= replaced(s@, pat@, with@));
    while i < n
        invariant
            i <= n,
            n == s@.len(),
            m == pat@.len(),
            m > 0,
            out@ + replaced(s@.subrange(i as int, n as int), pat@, with@) == replaced(
                s@,
                pat@,
                with@,
            ),
        decreases n - i,
    {
        let ghost rest = s@.subrange(i as int, n as int);
        if occurs_at(s, n, i, pat, m) {
            assert(rest.subrange(0, m as int) =~= s@.subrange(i as int, i + m));
            assert(rest.subrange(m as int, rest.len() as int) =~= s@.subrange(i + m, n as int));
            out.append(with);
            i = i + m;
            assert(out@ + replaced(s@.subrange(i as int, n as int), pat@, with@) =~= replaced(
                s@,
                pat@,
                with@,
            ));
        } else {
            let c = s.substring_char(i, i + 1);
            assert(c@ =~= seq![rest[0]]);
            assert(rest.subrange(1, rest.len() as int) =~= s@.subrange(i + 1, n as int));
            proof {
                if m <= rest.len() {
                    assert(rest.subrange(0, m as int) =~= s@.subrange(i as int, i + m));
                }
            }
            out.append(c);
            i = i + 1;
            assert(out@ + replaced(s@.subrange(i as int, n as int), pat@, with@) =~= replaced(
                s@,
                pat@,
                with@,
            ));
        }
    }
    assert(s@.subrange(n as int, n as int) =~= Seq::<char>::empty());
    assert(out@ + Seq::<char>::empty() =~= out@);
    out
}

/// The template's argument list, kept inline for the usual handful of
/// arguments.
#[verifier::external_body]
pub struct TemplateArgs {
    items: SmallVec<[String; 5]>,
}

/// The arguments that a template's list holds, in order.
pub uninterp spec fn arg_items(v: TemplateArgs) -> Seq<Seq<char>>;

/// Relies on `SmallVec::from_vec`: the list holds the vector's elements, in
/// the same order.
#[verifier::external_body]
fn args_from_vec(v: Vec<String>) -> (r: TemplateArgs)
    ensures
        arg_items(r) == v@.map_values(|a: String| a@),
{
    TemplateArgs { items: SmallVec::from_vec(v) }
}

/// Relies on `SmallVec::as_slice`: a slice of the held elements, in order.
#[verifier::external_body]
fn args_slice(v: &TemplateArgs) -> (r: &[String])
    ensures
        r@.map_values(|a: String| a@) == arg_items(*v),
{
    v.items.as_slice()
}

/// The speech command template: a program and its ordered arguments, one of
/// which is expected to hold the placeholder. An argument without it is
/// passed on unchanged, so a template without it never receives the text.
pub struct Command {
    pub program: String,
    pub args: TemplateArgs,
}

impl Command {
    /// The arguments as character sequences.
    pub open spec fn args_view(&self) -> Seq<Seq<char>> {
        arg_items(self.args)
    }

    /// A template of `program` and the arguments `args`, in order.
    pub fn new(program: String, args: Vec<String>) -> (r: Command)
        ensures
            r.program == program,
            r.args_view() == args@.map_values(|a: String| a@),
    {
        Command { program, args: args_from_vec(args) }
    }

    /// The template's arguments, in order.
    pub fn args(&self) -> (r: Vec<String>)
        ensures
            r@.map_values(|a: String| a@) == self.args_view(),
    {
        let args = args_slice(&self.args);
        let ghost items = args@.map_values(|a: String| a@);
        let mut out: Vec<String> = Vec::new();
        let mut i: usize = 0;
        while i < args.len()
            invariant
                i <= args@.len(),
                items == args@.map_values(|a: String| a@),
                out@.len() == i,
                forall|j: int| 0 <= j < i ==> #[trigger] out@[j]@ == items[j],
            decreases args@.len() - i,
        {
            let a = args[i].clone();
            assert(items[i as int] == a@);
            out.push(a);
            i = i + 1;
        }
        assert(out@.map_values(|a: String| a@) =~= items);
        out
    }

    /// The arguments of one invocation for the clipboard text `text`: each
    /// template argument with every placeholder replaced by `text`.
    pub fn arguments_for(&self, text: &str) -> (r: Vec<String>)
        ensures
            r@.len() == self.args_view().len(),
            forall|i: int|
                0 <= i < r@.len() ==> #[trigger] r@[i]@ == replaced(
                    self.args_view()[i],
                    PLACEHOLDER@,
                    text@,
                ),
    {
        proof {
            reveal_strlit("{text}");
        }
        let args = args_slice(&self.args);
        let ghost items = args@.map_values(|a: String| a@);
        let mut out: Vec<String> = Vec::new();
        let mut i: usize = 0;
        while i < args.len()
            invariant
                i <= args@.len(),
                items == args@.map_values(|a: String| a@),
                items == self.args_view(),
                out@.len() == i,
                PLACEHOLDER@.len() > 0,
                forall|j: int|
                    0 <= j < i ==> #[trigger] out@[j]@ == replaced(
                        self.args_view()[j],
                        PLACEHOLDER@,
                        text@,
                    ),
            decreases args@.len() - i,
        {
            assert(items[i as int] == args@[i as int]@);
            out.push(replace_all(args[i].as_str(), PLACEHOLDER, text));
            i = i + 1;
        }
        out
    }
}

} // verus!
