//! Request preparation done by the Anthropic client before sending: inline
//! `system` turns are folded into the top-level system prompt.

use crate::anthropic::types::{
    CacheControl, ContentBlock, Message, MessageContent, Role, SystemPrompt, TextBlock,
    TypedContentBlock,
};
use vstd::prelude::*;

verus! {

/// What a system text block holds: its type, text and cache marker.
pub type TextBlockModel = (Seq<char>, Seq<char>, Option<Seq<char>>);

pub open spec fn cache_model(c: Option<CacheControl>) -> Option<Seq<char>> {
    match c {
        Some(cc) => Some(cc.kind@),
        None => None,
    }
}

pub open spec fn text_block_model(b: TextBlock) -> TextBlockModel {
    (b.kind@, b.text@, cache_model(b.cache_control))
}

pub open spec fn text_blocks_model(bs: Seq<TextBlock>) -> Seq<TextBlockModel> {
    bs.map_values(|b: TextBlock| text_block_model(b))
}

pub open spec fn is_system_turn(m: Message) -> bool {
    m.role is System
}

pub open spec fn is_text_content_block(b: ContentBlock) -> bool {
    b matches ContentBlock::Typed(TypedContentBlock::Text { .. })
}

/// An inline system turn can be folded: plain text, or text blocks only.
pub open spec fn foldable(m: Message) -> bool {
    match m.content {
        MessageContent::Text(_) => true,
        MessageContent::Blocks(bs) => forall|i: int| 0 <= i < bs@.len() ==> #[trigger] is_text_content_block(bs@[i]),
    }
}

pub open spec fn folded_block(b: ContentBlock) -> TextBlockModel {
    match b {
        ContentBlock::Typed(TypedContentBlock::Text { text, cache_control }) => ("text"@, text@, cache_model(cache_control)),
        _ => ("text"@, Seq::empty(), None),
    }
}

/// The system text blocks an inline system turn becomes.
pub open spec fn folded_blocks(m: Message) -> Seq<TextBlockModel> {
    match m.content {
        MessageContent::Text(t) => seq![("text"@, t@, None::<Seq<char>>)],
        MessageContent::Blocks(bs) => bs@.map_values(|b: ContentBlock| folded_block(b)),
    }
}

/// The conversation turns, in order.
pub open spec fn conversation_turns(ms: Seq<Message>) -> Seq<Message>
    decreases ms.len(),
{
    if ms.len() == 0 {
        ms
    } else if is_system_turn(ms.last()) {
        conversation_turns(ms.drop_last())
    } else {
        conversation_turns(ms.drop_last()).push(ms.last())
    }
}

/// The blocks of all inline system turns, in order.
pub open spec fn inline_system_blocks(ms: Seq<Message>) -> Seq<TextBlockModel>
    decreases ms.len(),
{
    if ms.len() == 0 {
        Seq::empty()
    } else if is_system_turn(ms.last()) {
        inline_system_blocks(ms.drop_last()) + folded_blocks(ms.last())
    } else {
        inline_system_blocks(ms.drop_last())
    }
}

pub open spec fn has_system_turn(ms: Seq<Message>) -> bool {
    exists|i: int| 0 <= i < ms.len() && #[trigger] is_system_turn(ms[i])
}

pub open spec fn all_foldable(ms: Seq<Message>) -> bool {
    forall|i: int| 0 <= i < ms.len() && #[trigger] is_system_turn(ms[i]) ==> foldable(ms[i])
}

/// The system prompt's existing blocks.
pub open spec fn prompt_blocks(s: Option<SystemPrompt>) -> Seq<TextBlockModel> {
    match s {
        Some(SystemPrompt::Text(t)) => seq![("text"@, t@, None::<Seq<char>>)],
        Some(SystemPrompt::Blocks(bs)) => text_blocks_model(bs@),
        None => Seq::empty(),
    }
}

/// The error text when an inline system turn holds a non-text block.
pub open spec fn inline_system_error_text() -> Seq<char> {
    "inline system messages may only contain text blocks"@
}

#[verifier::loop_isolation(false)]
fn fold_turn(m: Message, out: &mut Vec<TextBlock>) -> (ok: bool)
    requires
        is_system_turn(m),
    ensures
        ok == foldable(m),
        ok ==> text_blocks_model(final(out)@) == text_blocks_model(old(out)@) + folded_blocks(m),
{
    let ghost gm = m;
    match m.content {
        MessageContent::Text(text) => {
            let ghost before = out@;
            out.push(TextBlock { kind: "text".to_string(), text, cache_control: None });
            assert(text_blocks_model(out@) =~= text_blocks_model(before) + folded_blocks(m));
            true
        },
        MessageContent::Blocks(blocks) => {
            let ghost bs = blocks@;
            let ghost start = text_blocks_model(out@);
            let mut rest = blocks;
            let mut i: usize = 0;
            let total = rest.len();
            while rest.len() > 0
                invariant
                    i + rest@.len() == bs.len(),
                    bs.len() == total,
                    gm.content matches MessageContent::Blocks(b) && b@ == bs,
                    rest@ == bs.subrange(i as int, bs.len() as int),
                    forall|k: int| 0 <= k < i ==> #[trigger] is_text_content_block(bs[k]),
                    text_blocks_model(out@) == start + bs.take(i as int).map_values(|b: ContentBlock| folded_block(b)),
                decreases rest.len(),
            {
                let block = rest.remove(0);
                assert(block == bs[i as int]);
                match block {
                    ContentBlock::Typed(TypedContentBlock::Text { text, cache_control }) => {
                        let ghost before = out@;
                        out.push(TextBlock { kind: "text".to_string(), text, cache_control });
                        proof {
                            assert(bs.take(i + 1).map_values(|b: ContentBlock| folded_block(b)) =~= bs.take(i as int).map_values(
                                |b: ContentBlock| folded_block(b),
                            ).push(folded_block(bs[i as int])));
                            assert(text_blocks_model(out@) =~= text_blocks_model(before).push(folded_block(bs[i as int])));
                        }
                    },
                    _ => {
                        assert(!is_text_content_block(bs[i as int]));
                        assert(gm.content matches MessageContent::Blocks(b) && b@ == bs);
                        assert(!foldable(gm));
                        return false;
                    },
                }
                i = i + 1;
                assert(rest@ =~= bs.subrange(i as int, bs.len() as int));
            }
            assert(bs.take(bs.len() as int) =~= bs);
            true
        },
    }
}

/// Moves inline `system` turns into the top-level system prompt, which
/// becomes blocks: its own blocks (a text prompt is one block), then the
/// inline turns' blocks in order. With no inline system turn nothing
/// changes. An inline system turn holding a non-text block is refused; the
/// turns have then been taken and `messages` is left empty.
pub fn normalize_inline_system_messages(messages: &mut Vec<Message>, system: &mut Option<SystemPrompt>) -> (r: Result<(), String>)
    ensures
        all_foldable(old(messages)@) ==> (r is Ok && final(messages)@ == conversation_turns(old(messages)@) && if has_system_turn(old(messages)@) {
            *final(system) matches Some(SystemPrompt::Blocks(bs)) && text_blocks_model(bs@) == prompt_blocks(*old(system)) + inline_system_blocks(old(messages)@)
        } else {
            *final(system) == *old(system)
        }),
        !all_foldable(old(messages)@) ==> (r matches Err(e) && e@ == inline_system_error_text() && final(messages)@.len() == 0
            && *final(system) == *old(system)),
{
    let mut taken: Vec<Message> = Vec::new();
    core::mem::swap(messages, &mut taken);
    let ghost ms = taken@;
    let mut conversation: Vec<Message> = Vec::new();
    let mut inline_system: Vec<TextBlock> = Vec::new();
    let mut found = false;
    let mut rest = taken;
    let total = rest.len();
    let mut i: usize = 0;
    assert(ms.take(0) =~= Seq::<Message>::empty());
    while rest.len() > 0
        invariant
            i + rest@.len() == ms.len(),
            ms.len() == total,
            rest@ == ms.subrange(i as int, ms.len() as int),
            messages@.len() == 0,
            *system == *old(system),
            ms == old(messages)@,
            all_foldable(ms.take(i as int)),
            conversation@ == conversation_turns(ms.take(i as int)),
            text_blocks_model(inline_system@) == inline_system_blocks(ms.take(i as int)),
            found == has_system_turn(ms.take(i as int)),
        decreases rest.len(),
    {
        let m = rest.remove(0);
        proof {
            assert(m == ms[i as int]);
            let t1 = ms.take(i + 1);
            assert(t1.drop_last() =~= ms.take(i as int));
            assert(t1.last() == ms[i as int]);
        }
        let is_system = match m.role {
            Role::System => true,
            _ => false,
        };
        if !is_system {
            conversation.push(m);
            proof {
                assert forall|k: int| 0 <= k < i + 1 && #[trigger] is_system_turn(ms.take(i + 1)[k]) implies foldable(ms.take(i + 1)[k]) by {
                    assert(ms.take(i + 1)[k] == ms[k]);
                    assert(k < i ==> ms.take(i as int)[k] == ms[k]);
                }
                if has_system_turn(ms.take(i + 1)) {
                    let w = choose|k: int| 0 <= k < i + 1 && #[trigger] is_system_turn(ms.take(i + 1)[k]);
                    assert(ms.take(i + 1)[w] == ms[w]);
                    assert(w < i);
                    assert(ms.take(i as int)[w] == ms[w]);
                }
            }
        } else {
            let ghost gm = m;
            found = true;
            let ok = fold_turn(m, &mut inline_system);
            if !ok {
                proof {
                    assert(ms[i as int] == gm);
                    assert(is_system_turn(ms[i as int]));
                    assert(!foldable(ms[i as int]));
                    assert(!all_foldable(ms));
                }
                return Err("inline system messages may only contain text blocks".to_string());
            }
            proof {
                assert forall|k: int| 0 <= k < i + 1 && #[trigger] is_system_turn(ms.take(i + 1)[k]) implies foldable(ms.take(i + 1)[k]) by {
                    assert(ms.take(i + 1)[k] == ms[k]);
                    assert(k < i ==> ms.take(i as int)[k] == ms[k]);
                }
                assert(ms.take(i + 1)[i as int] == ms[i as int]);
                assert(is_system_turn(ms.take(i + 1)[i as int]));
                assert(has_system_turn(ms.take(i + 1)));
            }
        }
        i = i + 1;
        assert(rest@ =~= ms.subrange(i as int, ms.len() as int));
    }
    assert(ms.take(ms.len() as int) =~= ms);
    *messages = conversation;
    if !found {
        return Ok(());
    }
    let mut current: Option<SystemPrompt> = None;
    core::mem::swap(system, &mut current);
    let mut blocks: Vec<TextBlock> = match current {
        Some(SystemPrompt::Text(text)) => {
            let mut v: Vec<TextBlock> = Vec::new();
            v.push(TextBlock { kind: "text".to_string(), text, cache_control: None });
            v
        },
        Some(SystemPrompt::Blocks(bs)) => bs,
        None => Vec::new(),
    };
    let ghost head = text_blocks_model(blocks@);
    let ghost tail = text_blocks_model(inline_system@);
    assert(head =~= prompt_blocks(*old(system)));
    blocks.append(&mut inline_system);
    assert(text_blocks_model(blocks@) =~= head + tail);
    *system = Some(SystemPrompt::Blocks(blocks));
    Ok(())
}

/// The conversation turns keep no system turn.
proof fn lemma_conversation_turns_no_system(ms: Seq<Message>)
    ensures
        !has_system_turn(conversation_turns(ms)),
    decreases ms.len(),
{
    if ms.len() > 0 {
        lemma_conversation_turns_no_system(ms.drop_last());
        let prev = conversation_turns(ms.drop_last());
        if !is_system_turn(ms.last()) {
            assert forall|i: int| 0 <= i < prev.push(ms.last()).len() implies !#[trigger] is_system_turn(prev.push(ms.last())[i]) by {
                if i < prev.len() {
                    assert(prev.push(ms.last())[i] == prev[i]);
                }
            }
        }
    }
}

/// Turns without a system turn are their own conversation turns.
proof fn lemma_conversation_turns_identity(ms: Seq<Message>)
    requires
        !has_system_turn(ms),
    ensures
        conversation_turns(ms) == ms,
    decreases ms.len(),
{
    if ms.len() > 0 {
        assert(!is_system_turn(ms[ms.len() - 1]));
        assert(!has_system_turn(ms.drop_last())) by {
            assert forall|i: int| 0 <= i < ms.drop_last().len() implies !#[trigger] is_system_turn(ms.drop_last()[i]) by {
                assert(ms.drop_last()[i] == ms[i]);
            }
        }
        lemma_conversation_turns_identity(ms.drop_last());
        assert(ms.drop_last().push(ms.last()) =~= ms);
    }
}

/// Folding inline system turns leaves none behind, so folding the result
/// again changes neither the turns nor the system prompt.
pub proof fn lemma_inline_system_folding_is_idempotent(ms: Seq<Message>)
    ensures
        !has_system_turn(conversation_turns(ms)),
        all_foldable(conversation_turns(ms)),
        conversation_turns(conversation_turns(ms)) == conversation_turns(ms),
{
    lemma_conversation_turns_no_system(ms);
    lemma_conversation_turns_identity(conversation_turns(ms));
}

} // verus!
