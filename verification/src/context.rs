//! Construction of the retrieval-augmented prompt.
//!
//! The passages retrieved from the vector index are prepended to the user's
//! prompt, each passage followed by a newline, and the prompt last.  The
//! lemmas here state the property the construction exists for: the built
//! text contains every passage and the prompt itself, whole and unchanged.

use vstd::prelude::*;
use vstd::string::StringExecFns;

verus! {

/// `hay` holds `needle` as a contiguous run of characters.
pub open spec fn contains_seq(hay: Seq<char>, needle: Seq<char>) -> bool {
    exists|j: int| 0 <= j && j + needle.len() <= hay.len() && #[trigger] hay.subrange(j, j + needle.len()) == needle
}

/// The context block: every passage in order, each followed by a newline.
pub open spec fn context_block(passages: Seq<Seq<char>>) -> Seq<char>
    decreases passages.len(),
{
    if passages.len() == 0 {
        Seq::empty()
    } else {
        context_block(passages.drop_last()) + passages.last() + seq!['\n']
    }
}

/// The text handed to the completion model: the context block, then the
/// prompt.
pub open spec fn augmented_prompt(passages: Seq<Seq<char>>, prompt: Seq<char>) -> Seq<char> {
    context_block(passages) + prompt
}

/// Containment survives extending the text on the right.
proof fn lemma_contains_extend_right(a: Seq<char>, b: Seq<char>, needle: Seq<char>)
    requires
        contains_seq(a, needle),
    ensures
        contains_seq(a + b, needle),
{
    let j = choose|j: int| 0 <= j && j + needle.len() <= a.len() && #[trigger] a.subrange(j, j + needle.len()) == needle;
    assert((a + b).subrange(j, j + needle.len() as int) =~= needle);
}

/// Containment survives extending the text on the left.
proof fn lemma_contains_extend_left(a: Seq<char>, b: Seq<char>, needle: Seq<char>)
    requires
        contains_seq(b, needle),
    ensures
        contains_seq(a + b, needle),
{
    let j = choose|j: int| 0 <= j && j + needle.len() <= b.len() && #[trigger] b.subrange(j, j + needle.len()) == needle;
    assert((a + b).subrange(a.len() + j, a.len() + j + needle.len() as int) =~= needle);
}

/// Every text contains itself.
proof fn lemma_contains_self(a: Seq<char>)
    ensures
        contains_seq(a, a),
{
    assert(a.subrange(0, 0 + a.len() as int) =~= a);
}

/// The context block contains each of its passages.
proof fn lemma_context_block_contains(passages: Seq<Seq<char>>, i: int)
    requires
        0 <= i < passages.len(),
    ensures
        contains_seq(context_block(passages), passages[i]),
    decreases passages.len(),
{
    let rest = passages.last() + seq!['\n'];
    assert(context_block(passages) =~= context_block(passages.drop_last()) + rest);
    if i == passages.len() - 1 {
        lemma_contains_self(passages.last());
        lemma_contains_extend_right(passages.last(), seq!['\n'], passages.last());
        lemma_contains_extend_left(context_block(passages.drop_last()), rest, passages.last());
    } else {
        lemma_context_block_contains(passages.drop_last(), i);
        assert(passages.drop_last()[i] == passages[i]);
        lemma_contains_extend_right(context_block(passages.drop_last()), rest, passages[i]);
    }
}

/// Law: the augmented prompt contains every retrieved passage and the
/// user's prompt, each whole and unchanged.
pub proof fn lemma_augmented_prompt_complete(passages: Seq<Seq<char>>, prompt: Seq<char>)
    ensures
        contains_seq(augmented_prompt(passages, prompt), prompt),
        forall|i: int| 0 <= i < passages.len() ==> contains_seq(
            augmented_prompt(passages, prompt),
            #[trigger] passages[i],
        ),
{
    lemma_contains_self(prompt);
    lemma_contains_extend_left(context_block(passages), prompt, prompt);
    assert forall|i: int| 0 <= i < passages.len() implies contains_seq(
        augmented_prompt(passages, prompt),
        #[trigger] passages[i],
    ) by {
        lemma_context_block_contains(passages, i);
        lemma_contains_extend_right(context_block(passages), prompt, passages[i]);
    }
}

/// Builds the text handed to the completion model from the retrieved
/// passages and the user's prompt.
pub fn build_augmented_prompt(passages: &Vec<String>, prompt: &str) -> (r: String)
    ensures
        r@ == augmented_prompt(passages.deep_view(), prompt@),
{
    let mut out = String::new();
    let mut i: usize = 0;
    while i < passages.len()
        invariant
            0 <= i <= passages.len(),
            out@ == context_block(passages.deep_view().take(i as int)),
        decreases passages.len() - i,
    {
        out.append(passages[i].as_str());
        out.append("\n");
        proof {
            let ps = passages.deep_view();
            assert(ps[i as int] == passages@[i as int]@);
            assert(ps.take(i + 1).drop_last() =~= ps.take(i as int));
            assert(ps.take(i + 1).last() == ps[i as int]);
            reveal_strlit("\n");
            assert("\n"@ =~= seq!['\n']);
            assert(out@ =~= context_block(ps.take(i + 1)));
        }
        i = i + 1;
    }
    proof {
        assert(passages.deep_view().take(passages@.len() as int) =~= passages.deep_view());
    }
    out.append(prompt);
    out
}

} // verus!
