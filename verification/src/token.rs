//! Tokens and what holds of their offsets.

use vstd::prelude::*;

verus! {

/// A piece of the analyzed text.
#[derive(Clone, Debug, PartialEq, Eq)]
pub struct Token {
    /// The text of the token, as the filters left it.
    pub text: String,
    /// Byte offset in the source text at which the token starts.
    pub offset_from: usize,
    /// Byte offset in the source text just after the token.
    pub offset_to: usize,
    /// Position of the token, counted in tokens.
    pub position: usize,
    /// Number of positions that the token spans.
    pub position_length: usize,
}

/// A token as a mathematical value.
pub struct TokenView {
    pub text: Seq<char>,
    pub offset_from: nat,
    pub offset_to: nat,
    pub position: nat,
    pub position_length: nat,
}

impl View for Token {
    type V = TokenView;

    open spec fn view(&self) -> TokenView {
        TokenView {
            text: self.text@,
            offset_from: self.offset_from as nat,
            offset_to: self.offset_to as nat,
            position: self.position as nat,
            position_length: self.position_length as nat,
        }
    }
}

/// The views of a sequence of tokens.
pub open spec fn token_views(tokens: Seq<Token>) -> Seq<TokenView> {
    tokens.map_values(|token: Token| token@)
}

/// Every token starts no later than it ends, and ends within `limit` bytes.
pub open spec fn offsets_within(tokens: Seq<TokenView>, limit: nat) -> bool {
    forall|i: int|
        0 <= i < tokens.len() ==> (#[trigger] tokens[i]).offset_from <= tokens[i].offset_to
            <= limit
}

/// Neither the start nor the end of a token lies before that of an earlier
/// token.
pub open spec fn offsets_ordered(tokens: Seq<TokenView>) -> bool {
    forall|i: int, j: int|
        0 <= i <= j < tokens.len() ==> (#[trigger] tokens[i]).offset_from <= (
        #[trigger] tokens[j]).offset_from && tokens[i].offset_to <= tokens[j].offset_to
}

/// Whether `kept` can be had from `tokens` by dropping tokens and rewriting
/// texts: each token of `kept` has the offsets and positions of a token of
/// `tokens`, and the tokens that stay keep their order.
pub open spec fn selected_from(kept: Seq<TokenView>, tokens: Seq<TokenView>) -> bool {
    exists|origin: Seq<int>| is_selection(kept, tokens, origin)
}

/// `origin[i]` is the index in `tokens` of the token that `kept[i]` came from.
pub open spec fn is_selection(kept: Seq<TokenView>, tokens: Seq<TokenView>, origin: Seq<int>) -> bool {
    &&& origin.len() == kept.len()
    &&& forall|i: int| 0 <= i < kept.len() ==> 0 <= #[trigger] origin[i] < tokens.len()
    &&& forall|i: int, j: int|
        0 <= i < j < kept.len() ==> #[trigger] origin[i] < #[trigger] origin[j]
    &&& forall|i: int|
        0 <= i < kept.len() ==> same_place(#[trigger] kept[i], tokens[origin[i]])
}

/// Two tokens that differ at most in their text.
pub open spec fn same_place(a: TokenView, b: TokenView) -> bool {
    &&& a.offset_from == b.offset_from
    &&& a.offset_to == b.offset_to
    &&& a.position == b.position
    &&& a.position_length == b.position_length
}

/// Every sequence of tokens is a selection of itself.
pub proof fn lemma_selection_reflexive(tokens: Seq<TokenView>)
    ensures
        selected_from(tokens, tokens),
{
    let origin = Seq::new(tokens.len(), |i: int| i);
    assert(is_selection(tokens, tokens, origin));
}

/// A selection of a selection is a selection.
pub proof fn lemma_selection_transitive(
    kept: Seq<TokenView>,
    between: Seq<TokenView>,
    tokens: Seq<TokenView>,
)
    requires
        selected_from(kept, between),
        selected_from(between, tokens),
    ensures
        selected_from(kept, tokens),
{
    let first = choose|origin: Seq<int>| is_selection(kept, between, origin);
    let second = choose|origin: Seq<int>| is_selection(between, tokens, origin);
    let origin = Seq::new(kept.len(), |i: int| second[first[i]]);
    assert forall|i: int| 0 <= i < kept.len() implies 0 <= #[trigger] origin[i] < tokens.len() by {
        assert(0 <= first[i] < between.len());
    }
    assert forall|i: int, j: int| 0 <= i < j < kept.len() implies #[trigger] origin[i]
        < #[trigger] origin[j] by {
        assert(0 <= first[i] < first[j] < between.len());
    }
    assert forall|i: int| 0 <= i < kept.len() implies same_place(
        #[trigger] kept[i],
        tokens[origin[i]],
    ) by {
        assert(0 <= first[i] < between.len());
        assert(same_place(kept[i], between[first[i]]));
        assert(same_place(between[first[i]], tokens[second[first[i]]]));
    }
    assert(is_selection(kept, tokens, origin));
}

/// A selection keeps what holds of the offsets of the tokens it was made
/// from.
pub proof fn lemma_selection_keeps_offsets(
    kept: Seq<TokenView>,
    tokens: Seq<TokenView>,
    limit: nat,
)
    requires
        selected_from(kept, tokens),
    ensures
        offsets_ordered(tokens) ==> offsets_ordered(kept),
        offsets_within(tokens, limit) ==> offsets_within(kept, limit),
{
    let origin = choose|origin: Seq<int>| is_selection(kept, tokens, origin);
    if offsets_ordered(tokens) {
        assert forall|i: int, j: int| 0 <= i <= j < kept.len() implies (
        #[trigger] kept[i]).offset_from <= (#[trigger] kept[j]).offset_from && kept[i].offset_to
            <= kept[j].offset_to by {
            assert(same_place(kept[i], tokens[origin[i]]));
            assert(same_place(kept[j], tokens[origin[j]]));
            if i < j {
                assert(origin[i] < origin[j]);
            }
        }
    }
    if offsets_within(tokens, limit) {
        assert forall|i: int| 0 <= i < kept.len() implies (#[trigger] kept[i]).offset_from
            <= kept[i].offset_to <= limit by {
            assert(same_place(kept[i], tokens[origin[i]]));
        }
    }
}

/// Dropping the tokens that do not meet a condition is a selection.
pub proof fn lemma_filter_selects(tokens: Seq<TokenView>, keep: spec_fn(TokenView) -> bool)
    ensures
        selected_from(tokens.filter(keep), tokens),
    decreases tokens.len(),
{
    reveal(Seq::filter);
    if tokens.len() == 0 {
        lemma_selection_reflexive(tokens);
    } else {
        let front = tokens.drop_last();
        lemma_filter_selects(front, keep);
        let inner = choose|origin: Seq<int>| is_selection(front.filter(keep), front, origin);
        let kept = tokens.filter(keep);
        let origin = if keep(tokens.last()) {
            inner.push(tokens.len() - 1)
        } else {
            inner
        };
        assert forall|i: int| 0 <= i < kept.len() implies 0 <= #[trigger] origin[i]
            < tokens.len() && same_place(kept[i], tokens[origin[i]]) by {
            if i < inner.len() {
                assert(0 <= inner[i] < front.len());
                assert(same_place(front.filter(keep)[i], front[inner[i]]));
            }
        }
        assert forall|i: int, j: int| 0 <= i < j < kept.len() implies #[trigger] origin[i]
            < #[trigger] origin[j] by {
            assert(0 <= inner[i] < front.len());
            if j < inner.len() {
                assert(inner[i] < inner[j]);
            }
        }
        assert(is_selection(kept, tokens, origin));
    }
}

/// Rewriting the text of every token is a selection.
pub proof fn lemma_rewrite_selects(tokens: Seq<TokenView>, rewrite: spec_fn(TokenView) -> TokenView)
    requires
        forall|token: TokenView| same_place(#[trigger] rewrite(token), token),
    ensures
        selected_from(tokens.map_values(rewrite), tokens),
{
    let origin = Seq::new(tokens.len(), |i: int| i);
    assert(is_selection(tokens.map_values(rewrite), tokens, origin));
}

} // verus!
