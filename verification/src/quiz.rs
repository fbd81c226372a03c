//! Prompts for quiz questions about a person.
use crate::inspire::{self, three_layers};
use crate::prompt::{MemoryItem, ResolvedPrompt};
use crate::text;
use vstd::prelude::*;

verus! {

/// Asks for a quiz about a person.
pub struct QuizRequest {
    pub person_name: String,
    pub memories: Vec<MemoryItem>,
}

pub const QUIZ_SYS: &'static str =
    r#"根据提供的记忆，生成最多 3 道关于这个人的单选题，测试用户对 ta 的了解程度。严格返回 JSON：{"questions":[{"question":"...","options":["A选项","B选项","C选项"],"answer_index":0,"memory_source":"来自哪条记忆"}]}。要求：options[answer_index] 是正确答案（来自记忆），其余选项是合理但错误的干扰项，题目有趣不要太容易，记忆不足则少出题。仅返回 JSON，不加任何其他文字。"#;

/// Memories as they are sent, one per line.
pub open spec fn quiz_lines(memories: Seq<MemoryItem>) -> Seq<char>
    decreases memories.len(),
{
    if memories.len() == 0 {
        Seq::empty()
    } else {
        quiz_lines(memories.drop_last()) + ("- "@ + memories.last().content@ + "\n"@)
    }
}

/// The person and the memories, or that there are none.
pub open spec fn quiz_context(name: Seq<char>, memories: Seq<MemoryItem>) -> Seq<char> {
    "心上人："@ + name + "\n关于 ta 的记忆：\n"@ + if memories.len() == 0 {
        "暂无记录。\n"@
    } else {
        quiz_lines(memories)
    }
}

/// `r` is the prompt for quiz questions.
pub open spec fn is_quiz_prompt(req: QuizRequest, r: ResolvedPrompt) -> bool {
    &&& r.system@ == QUIZ_SYS@
    &&& r.developer@ == Seq::<char>::empty()
    &&& r.user_context@ == quiz_context(req.person_name@, req.memories@)
    &&& r.user@ == "请生成最多 3 道单选题，严格返回 JSON。"@
    &&& text::texts(r.audit.system_prompt_keys@) == seq!["quiz"@]
    &&& r.audit.context_memory_count == req.memories@.len()
    &&& inspire::byte_size(r.system@, r.user_context@, r.user@) <= usize::MAX
        ==> r.audit.sent_chars == inspire::byte_size(r.system@, r.user_context@, r.user@)
}

/// The prompt for a quiz. `sent_chars` is its size in bytes, where a `usize`
/// can hold it.
pub fn resolve_quiz(req: &QuizRequest) -> (r: ResolvedPrompt)
    ensures
        is_quiz_prompt(*req, r),
{
    let mut user_context = "心上人：".to_owned();
    user_context.append(req.person_name.as_str());
    user_context.append("\n关于 ta 的记忆：\n");
    if req.memories.len() == 0 {
        user_context.append("暂无记录。\n");
    }
    let ghost start = "心上人："@ + req.person_name@ + "\n关于 ta 的记忆：\n"@;
    let mut i: usize = 0;
    assert(req.memories@.take(0) =~= Seq::<MemoryItem>::empty());
    assert(req.memories@.len() > 0 ==> user_context@ =~= start + quiz_lines(req.memories@.take(0)));
    while i < req.memories.len()
        invariant
            i <= req.memories@.len(),
            req.memories@.len() == 0 ==> user_context@ == quiz_context(
                req.person_name@,
                req.memories@,
            ),
            req.memories@.len() > 0 ==> user_context@ == start + quiz_lines(
                req.memories@.take(i as int),
            ),
        decreases req.memories@.len() - i,
    {
        let ghost before = user_context@;
        user_context.append("- ");
        user_context.append(req.memories[i].content.as_str());
        user_context.append("\n");
        proof {
            let so_far = req.memories@.take(i + 1);
            assert(so_far.drop_last() =~= req.memories@.take(i as int));
            assert(user_context@ =~= start + quiz_lines(so_far));
        }
        i = i + 1;
    }
    assert(req.memories@.take(req.memories@.len() as int) =~= req.memories@);
    assert(user_context@ =~= quiz_context(req.person_name@, req.memories@));
    let user = "请生成最多 3 道单选题，严格返回 JSON。".to_owned();
    three_layers(QUIZ_SYS, user_context, user, "quiz", req.memories.len())
}

proof fn lemma_quiz_lines_grow(memories: Seq<MemoryItem>, n: int)
    requires
        0 <= n <= memories.len(),
    ensures
        quiz_lines(memories.take(n)).is_prefix_of(quiz_lines(memories)),
    decreases memories.len(),
{
    if n == memories.len() {
        assert(memories.take(n) =~= memories);
    } else {
        let rest = memories.drop_last();
        lemma_quiz_lines_grow(rest, n);
        assert(rest.take(n) =~= memories.take(n));
        let part = quiz_lines(memories.take(n));
        assert(part =~= quiz_lines(memories).subrange(0, part.len() as int));
    }
}

proof fn lemma_next_quiz_line(memories: Seq<MemoryItem>, i: int)
    requires
        0 <= i < memories.len(),
    ensures
        quiz_lines(memories.take(i + 1)) == quiz_lines(memories.take(i)) + ("- "@
            + memories[i].content@ + "\n"@),
{
    assert(memories.take(i + 1).drop_last() =~= memories.take(i));
    assert(memories.take(i + 1).last() == memories[i]);
}

/// Every memory of a request is in what is sent for a quiz, on a line of its
/// own, and behind the lines of all memories before it: what is sent begins with
/// what is sent for the memories before it, followed by its line.
pub proof fn law_every_memory_is_in_the_quiz(req: QuizRequest, r: ResolvedPrompt, i: int)
    requires
        is_quiz_prompt(req, r),
        0 <= i < req.memories@.len(),
    ensures
        text::occurs_in("- "@ + req.memories@[i].content@ + "\n"@, r.user_context@),
        i > 0 ==> (quiz_context(req.person_name@, req.memories@.take(i)) + ("- "@
            + req.memories@[i].content@ + "\n"@)).is_prefix_of(r.user_context@),
{
    let memories = req.memories@;
    let line = "- "@ + memories[i].content@ + "\n"@;
    let head = "心上人："@ + req.person_name@ + "\n关于 ta 的记忆：\n"@;
    let before = quiz_lines(memories.take(i));
    let upto = quiz_lines(memories.take(i + 1));
    let all = quiz_lines(memories);
    lemma_quiz_lines_grow(memories, i + 1);
    lemma_next_quiz_line(memories, i);
    lemma_line_stands(head, before, line, all);
    assert(r.user_context@ == head + all);
}

proof fn lemma_line_stands(head: Seq<char>, before: Seq<char>, line: Seq<char>, all: Seq<char>)
    requires
        (before + line).is_prefix_of(all),
    ensures
        text::occurs_in(line, head + all),
        (head + before + line).is_prefix_of(head + all),
{
    let whole = head + all;
    let at = (head.len() + before.len()) as int;
    assert(all.subrange(0, (before + line).len() as int) =~= before + line);
    assert forall|k: int| 0 <= k < line.len() implies whole[at + k] == line[k] by {
        assert((before + line)[before.len() + k] == line[k]);
        assert(all[before.len() + k] == (before + line)[before.len() + k]);
    }
    assert(whole.subrange(at, at + line.len()) =~= line);
    assert(text::occurs_at(line, whole, at));
    assert forall|k: int| 0 <= k < (head + before + line).len() implies whole[k] == (head + before
        + line)[k] by {
        if k >= head.len() {
            assert(all[k - head.len()] == (before + line)[k - head.len()]);
        }
    }
    assert(whole.subrange(0, (head + before + line).len() as int) =~= head + before + line);
}

/// One more memory, where there was one, appends exactly one line; the first
/// memory stands alone; and without memories that is said.
pub proof fn law_one_more_memory_is_one_more_quiz_line(
    name: Seq<char>,
    memories: Seq<MemoryItem>,
    memory: MemoryItem,
)
    ensures
        memories.len() > 0 ==> quiz_context(name, memories.push(memory)) == quiz_context(
            name,
            memories,
        ) + ("- "@ + memory.content@ + "\n"@),
        quiz_context(name, seq![memory]) == "心上人："@ + name + "\n关于 ta 的记忆：\n"@ + ("- "@
            + memory.content@ + "\n"@),
        quiz_context(name, Seq::empty()) == "心上人："@ + name + "\n关于 ta 的记忆：\n"@
            + "暂无记录。\n"@,
{
    assert(memories.push(memory).drop_last() =~= memories);
    assert(quiz_lines(Seq::<MemoryItem>::empty()) =~= Seq::<char>::empty());
    assert(seq![memory].drop_last() =~= Seq::<MemoryItem>::empty());
    assert(quiz_lines(seq![memory]) =~= "- "@ + memory.content@ + "\n"@);
    if memories.len() > 0 {
        assert(quiz_context(name, memories.push(memory)) =~= quiz_context(name, memories) + ("- "@
            + memory.content@ + "\n"@));
    }
}

/// What is on record of the prompt for a quiz: one key, the number of memories,
/// and the bytes of all that is sent.
pub proof fn law_quiz_record(req: QuizRequest, r: ResolvedPrompt)
    requires
        is_quiz_prompt(req, r),
    ensures
        text::texts(r.audit.system_prompt_keys@) == seq!["quiz"@],
        r.audit.context_memory_count == req.memories@.len(),
        r.developer@.len() == 0,
        r.user@ == "请生成最多 3 道单选题，严格返回 JSON。"@,
        vstd::utf8::encode_utf8(r.system@).len() + vstd::utf8::encode_utf8(r.user_context@).len()
            + vstd::utf8::encode_utf8(r.user@).len() <= usize::MAX ==> r.audit.sent_chars
            == vstd::utf8::encode_utf8(r.system@).len() + vstd::utf8::encode_utf8(
            r.user_context@,
        ).len() + vstd::utf8::encode_utf8(r.user@).len(),
{
}

/// Two quizzes about the same person, the second with one memory more at the end:
/// what is sent for the second is what is sent for the first and one line, and
/// all else is the same.
pub proof fn law_quizzes_grow_line_by_line(
    first: &QuizRequest,
    second: &QuizRequest,
    memory: MemoryItem,
    r: ResolvedPrompt,
    s: ResolvedPrompt,
)
    requires
        first.memories@.len() > 0,
        second.memories@ == first.memories@.push(memory),
        second.person_name@ == first.person_name@,
        call_ensures(resolve_quiz, (first,), r),
        call_ensures(resolve_quiz, (second,), s),
    ensures
        s.user_context@ == r.user_context@ + ("- "@ + memory.content@ + "\n"@),
        s.system@ == r.system@,
        s.developer@ == r.developer@,
        s.user@ == r.user@,
        s.audit.context_memory_count == r.audit.context_memory_count + 1,
{
    law_one_more_memory_is_one_more_quiz_line(first.person_name@, first.memories@, memory);
}

/// What the model is told for a quiz, word for word.
pub proof fn law_what_the_quiz_master_is_told(req: QuizRequest, r: ResolvedPrompt)
    requires
        is_quiz_prompt(req, r),
    ensures
        r.system@
            == r#"根据提供的记忆，生成最多 3 道关于这个人的单选题，测试用户对 ta 的了解程度。严格返回 JSON：{"questions":[{"question":"...","options":["A选项","B选项","C选项"],"answer_index":0,"memory_source":"来自哪条记忆"}]}。要求：options[answer_index] 是正确答案（来自记忆），其余选项是合理但错误的干扰项，题目有趣不要太容易，记忆不足则少出题。仅返回 JSON，不加任何其他文字。"#@,
        r.user_context@ == quiz_context(req.person_name@, req.memories@),
{
}

} // verus!
