use vstd::prelude::*;

verus! {

/// Printed between two completions of one request.
pub open spec fn separator() -> Seq<char> {
    "\n\n---\n\n"@
}

/// The texts of a list of strings.
pub open spec fn texts_of(v: Seq<String>) -> Seq<Seq<char>> {
    v.map_values(|s: String| s@)
}

/// The completions in order, with the separator between each two.
pub open spec fn joined(ts: Seq<Seq<char>>) -> Seq<char>
    decreases ts.len(),
{
    if ts.len() == 0 {
        Seq::empty()
    } else if ts.len() == 1 {
        ts[0]
    } else {
        joined(ts.drop_last()) + separator() + ts.last()
    }
}

proof fn joined_step(ts: Seq<Seq<char>>, i: int)
    requires
        1 <= i < ts.len(),
    ensures
        joined(ts.subrange(0, i + 1)) == joined(ts.subrange(0, i)) + separator() + ts[i],
{
    assert(ts.subrange(0, i + 1).drop_last() =~= ts.subrange(0, i));
}

/// Joins the completions of one request in order.
pub fn join_completions(texts: &Vec<String>) -> (r: String)
    ensures
        r@ == joined(texts_of(texts@)),
{
    let ghost ts = texts_of(texts@);
    let mut out = String::new();
    let mut i: usize = 0;
    while i < texts.len()
        invariant
            i <= texts@.len(),
            ts == texts_of(texts@),
            out@ == joined(ts.subrange(0, i as int)),
        decreases texts@.len() - i,
    {
        if i > 0 {
            out.append("\n\n---\n\n");
            proof {
                joined_step(ts, i as int);
            }
        } else {
            assert(ts.subrange(0, 1).drop_last() =~= Seq::<Seq<char>>::empty());
        }
        out.append(texts[i].as_str());
        i = i + 1;
        assert(out@ =~= joined(ts.subrange(0, i as int)));
    }
    assert(ts.subrange(0, texts@.len() as int) =~= ts);
    out
}

/// The rendered result of a single prompt: the joined completions, then the
/// suffix once.
pub fn render_completions(texts: &Vec<String>, suffix: &str) -> (r: String)
    ensures
        r@ == joined(texts_of(texts@)) + suffix@,
{
    let mut out = join_completions(texts);
    out.append(suffix);
    out
}

/// Two completions render as the first, the separator, the second and the
/// suffix, which is not repeated per completion.
pub proof fn two_samples_one_suffix(a: Seq<char>, b: Seq<char>, suffix: Seq<char>)
    ensures
        joined(seq![a, b]) + suffix == a + separator() + b + suffix,
{
    assert(seq![a, b].drop_last() =~= seq![a]);
    assert(joined(seq![a]) == a);
    assert((a + separator() + b) + suffix =~= a + separator() + b + suffix);
}

} // verus!
