//! What holds of every token stream: block starts and block ends are
//! balanced, and the stream ends with the one end-of-input token.

use vstd::prelude::*;
use crate::lexer::rules::{
    balanced, block_ends, block_starts, close_blocks, dedent, indentation, input_ends, scan_all,
    scan_char, scan_token, tokenize, ScanState,
};
use crate::lexer::token::{TokenKindView, TokenView};

verus! {

/// One more token counts where it starts a block, ends a block or ends the
/// input, and nowhere else.
pub proof fn lemma_counts_of_push(tokens: Seq<TokenView>, token: TokenView)
    ensures
        block_starts(tokens.push(token)) == block_starts(tokens) + if token.kind is Indent {
            1nat
        } else {
            0nat
        },
        block_ends(tokens.push(token)) == block_ends(tokens) + if token.kind is Dedent {
            1nat
        } else {
            0nat
        },
        input_ends(tokens.push(token)) == input_ends(tokens) + if token.kind is Eof {
            1nat
        } else {
            0nat
        },
{
    assert(tokens.push(token).drop_last() =~= tokens);
}

/// A token that starts no block, ends none and is not the end of the input
/// leaves the counts as they are; see [`lemma_counts_of_push`].
proof fn lemma_counts_of_every_push()
    ensures
        forall|tokens: Seq<TokenView>, token: TokenView|
            block_starts(#[trigger] tokens.push(token)) == block_starts(tokens) + if token.kind is Indent {
                1nat
            } else {
                0nat
            } && block_ends(tokens.push(token)) == block_ends(tokens) + if token.kind is Dedent {
                1nat
            } else {
                0nat
            } && input_ends(tokens.push(token)) == input_ends(tokens) + if token.kind is Eof {
                1nat
            } else {
                0nat
            },
{
    assert forall|tokens: Seq<TokenView>, token: TokenView|
        block_starts(#[trigger] tokens.push(token)) == block_starts(tokens) + if token.kind is Indent {
            1nat
        } else {
            0nat
        } && block_ends(tokens.push(token)) == block_ends(tokens) + if token.kind is Dedent {
            1nat
        } else {
            0nat
        } && input_ends(tokens.push(token)) == input_ends(tokens) + if token.kind is Eof {
            1nat
        } else {
            0nat
        } by {
        lemma_counts_of_push(tokens, token);
    }
}

proof fn lemma_dedent_keeps_balance(st: ScanState, spaces: usize)
    requires
        balanced(st),
    ensures
        balanced(dedent(st, spaces)),
    decreases st.indents.len(),
{
    reveal(dedent);
    if st.indents.len() > 1 && st.indents.last() > spaces {
        let popped = ScanState { indents: st.indents.drop_last(), ..st };
        let next = popped.emit(TokenKindView::Dedent);
        lemma_counts_of_push(st.tokens, TokenView { kind: TokenKindView::Dedent, span: popped.here() });
        lemma_dedent_keeps_balance(next, spaces);
    }
}

proof fn lemma_close_keeps_balance(st: ScanState)
    requires
        balanced(st),
    ensures
        balanced(close_blocks(st)),
        close_blocks(st).indents.len() == 1,
    decreases st.indents.len(),
{
    reveal(close_blocks);
    if st.indents.len() > 1 {
        let popped = ScanState { indents: st.indents.drop_last(), ..st };
        let next = popped.emit(TokenKindView::Dedent);
        lemma_counts_of_push(st.tokens, TokenView { kind: TokenKindView::Dedent, span: popped.here() });
        lemma_close_keeps_balance(next);
    }
}

proof fn lemma_indentation_keeps_balance(chars: Seq<char>, st: ScanState)
    requires
        balanced(st),
    ensures
        indentation(chars, st) matches Ok(next) ==> balanced(next),
{
    lemma_counts_of_every_push();
    let end = crate::lexer::rules::spaces_end(chars, st.pos);
    let at = st.moved_to(end);
    lemma_dedent_keeps_balance(at, (end - st.pos) as usize);
}

proof fn lemma_char_keeps_balance(chars: Seq<char>, st: ScanState, html: bool)
    requires
        balanced(st),
    ensures
        scan_char(chars, st, html) matches Ok(next) ==> balanced(next),
{
    lemma_counts_of_every_push();
}

proof fn lemma_step_keeps_balance(chars: Seq<char>, st: ScanState, html: bool)
    requires
        balanced(st),
    ensures
        scan_token(chars, st, html) matches Ok(next) ==> balanced(next),
{
    if st.at_line_start {
        lemma_indentation_keeps_balance(chars, st);
        match indentation(chars, st) {
            Ok(indented) => {
                lemma_char_keeps_balance(chars, ScanState { at_line_start: false, ..indented }, html);
            },
            Err(e) => {},
        }
    } else {
        lemma_char_keeps_balance(chars, st, html);
    }
}

proof fn lemma_scan_keeps_balance(chars: Seq<char>, st: ScanState, html: bool)
    requires
        balanced(st),
    ensures
        scan_all(chars, st, html) matches Ok(next) ==> balanced(next),
    decreases chars.len() - st.pos,
{
    reveal(scan_all);
    if st.pos < chars.len() {
        lemma_step_keeps_balance(chars, st, html);
        match scan_token(chars, st, html) {
            Ok(next) => {
                if st.pos < next.pos <= chars.len() {
                    lemma_scan_keeps_balance(chars, next, html);
                }
            },
            Err(e) => {},
        }
    }
}

/// Indentation is balanced: in the tokens of every source text there are as
/// many block starts as block ends, and the last token, and no other, is the
/// end of input.
pub proof fn lemma_tokens_are_balanced(chars: Seq<char>)
    ensures
        tokenize(chars) matches Ok(tokens) ==> block_starts(tokens) == block_ends(tokens)
            && input_ends(tokens) == 1 && tokens.len() > 0 && tokens.last().kind is Eof,
{
    let start = ScanState::initial();
    assert(balanced(start));
    lemma_scan_keeps_balance(chars, start, true);
    match scan_all(chars, start, true) {
        Ok(st) => {
            lemma_close_keeps_balance(st);
            let closed = close_blocks(st);
            lemma_counts_of_push(
                closed.tokens,
                TokenView { kind: TokenKindView::Eof, span: closed.here() },
            );
        },
        Err(e) => {},
    }
}

} // verus!
