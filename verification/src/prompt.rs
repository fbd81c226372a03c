//! Putting together what is sent to the language model for a question.
use crate::text::{self, borrowed, decimal_text};
use vstd::prelude::*;

verus! {

/// One remembered fact about a person.
pub struct MemoryItem {
    pub content: String,
    pub category: Option<String>,
    pub created_at: Option<String>,
}

/// One turn of the conversation so far; the role is `user` or `assistant`.
pub struct ChatTurn {
    pub role: String,
    pub content: String,
}

/// A question about a person, with all that the answer may draw upon.
pub struct QaRequest {
    pub person_name: String,
    pub relation: Option<String>,
    pub memories: Vec<MemoryItem>,
    pub question: String,
    pub tone: Option<String>,
    pub perspective: Option<String>,
    /// Decides which tier of model answers.
    pub scenario: Option<String>,
    /// The conversation so far, without this question.
    pub history: Vec<ChatTurn>,
}

/// What is on record about a prompt that was sent.
pub struct Audit {
    pub system_prompt_keys: Vec<String>,
    pub context_memory_count: usize,
    pub sent_chars: usize,
}

/// A prompt, layer by layer.
pub struct ResolvedPrompt {
    pub system: String,
    pub developer: String,
    pub user_context: String,
    pub user: String,
    pub audit: Audit,
}

pub const TRUTH_BOUNDARY: &'static str =
    "区分事实、记忆与推断；没有记忆不要编造关系或事件；每个结论标注来自哪条记忆或「缺少记忆」。";

pub const NO_MINDREADING: &'static str =
    "不臆测对方内心、动机、是否爱/恨/出轨；只基于可观察的记忆。任何推测都标注「这是推测，建议直接沟通」，不下定论。";

pub const EMOTIONAL_TONE: &'static str =
    "温暖、导向行动；不制造愧疚、审判、焦虑或施压；给出下一步，并保留正反馈。";

pub const PRIVACY_MINIMAL_SEND: &'static str =
    "只使用本次随请求发送的内容；不要请求或假设未提供的资料。";

pub const RELATIONSHIP_FOCUS: &'static str =
    "你是心上 AI，关系的理解者与守护者；只围绕用户最重要的人，不做泛聊天。";

pub const NO_HARM: &'static str =
    "不提供操纵、监控、跟踪、套话手段；不做医疗或心理诊断；涉及风险建议温和、直接沟通或寻求专业帮助。";

pub const QA_TASK: &'static str =
    "任务：基于提供的记忆回答用户关于这个人的问题。\n输出契约：先给结论（标注来自哪条记忆或「缺少记忆」），再给一个温暖、可执行的下一步。\n记忆不足时直接说明缺什么、建议记录什么，绝不编造。";

/// The built-in rules, each with its key. No request can change them.
pub open spec fn system_rules() -> Seq<(Seq<char>, Seq<char>)> {
    seq![
        ("SYS.TRUTH_BOUNDARY"@, TRUTH_BOUNDARY@),
        ("SYS.NO_MINDREADING"@, NO_MINDREADING@),
        ("SYS.EMOTIONAL_TONE"@, EMOTIONAL_TONE@),
        ("SYS.PRIVACY_MINIMAL_SEND"@, PRIVACY_MINIMAL_SEND@),
        ("SYS.RELATIONSHIP_FOCUS"@, RELATIONSHIP_FOCUS@),
        ("SYS.NO_HARM"@, NO_HARM@),
    ]
}

/// A rule as it is sent.
pub open spec fn rule_line(rule: (Seq<char>, Seq<char>)) -> Seq<char> {
    "["@ + rule.0 + "] "@ + rule.1
}

/// Rules as they are sent, one per line.
pub open spec fn rules_text(rules: Seq<(Seq<char>, Seq<char>)>) -> Seq<char>
    decreases rules.len(),
{
    if rules.len() == 0 {
        Seq::empty()
    } else if rules.len() == 1 {
        rule_line(rules[0])
    } else {
        rules_text(rules.drop_last()) + "\n"@ + rule_line(rules.last())
    }
}

/// `before`, the value and `after`, where there is a value; else nothing.
pub open spec fn framed(before: Seq<char>, value: Option<Seq<char>>, after: Seq<char>) -> Seq<char> {
    match value {
        Some(v) => before + v + after,
        None => Seq::empty(),
    }
}

/// A memory as it is sent, under its number.
pub open spec fn memory_line(number: nat, memory: MemoryItem) -> Seq<char> {
    let category = match memory.category {
        Some(c) => c@,
        None => "未分类"@,
    };
    text::decimal(number) + ". ["@ + category + "] "@ + memory.content@ + framed(
        "（记于 "@,
        text::opt_text(memory.created_at),
        "）"@,
    ) + "\n"@
}

/// Memories as they are sent, numbered from 1.
pub open spec fn memory_lines(memories: Seq<MemoryItem>) -> Seq<char>
    decreases memories.len(),
{
    if memories.len() == 0 {
        Seq::empty()
    } else {
        memory_lines(memories.drop_last()) + memory_line(memories.len(), memories.last())
    }
}

/// Who the question is about, and how it is to be answered.
pub open spec fn qa_head(req: QaRequest) -> Seq<char> {
    "人物："@ + req.person_name@ + framed("（关系："@, text::opt_text(req.relation), "）"@) + "\n"@
        + framed("视角："@, text::opt_text(req.perspective), "\n"@) + framed(
        "语气："@,
        text::opt_text(req.tone),
        "\n"@,
    )
}

/// The context of a question: the person, then the memories, or that there
/// are none.
pub open spec fn qa_context(req: QaRequest) -> Seq<char> {
    qa_head(req) + if req.memories@.len() == 0 {
        "（暂无可引用的记忆）\n"@
    } else {
        "可引用的记忆：\n"@ + memory_lines(req.memories@)
    }
}

/// The number of characters that are sent for a question.
pub open spec fn qa_size(req: QaRequest) -> nat {
    rules_text(system_rules()).len() + QA_TASK@.len() + qa_context(req).len() + req.question@.len()
}

/// The built-in rules.
fn rules() -> (r: Vec<(&'static str, &'static str)>)
    ensures
        r@.map_values(|p: (&str, &str)| (p.0@, p.1@)) == system_rules(),
{
    let r = vec![
        ("SYS.TRUTH_BOUNDARY", TRUTH_BOUNDARY),
        ("SYS.NO_MINDREADING", NO_MINDREADING),
        ("SYS.EMOTIONAL_TONE", EMOTIONAL_TONE),
        ("SYS.PRIVACY_MINIMAL_SEND", PRIVACY_MINIMAL_SEND),
        ("SYS.RELATIONSHIP_FOCUS", RELATIONSHIP_FOCUS),
        ("SYS.NO_HARM", NO_HARM),
    ];
    assert(r@.map_values(|p: (&str, &str)| (p.0@, p.1@)) =~= system_rules());
    r
}

/// Appends `before`, the value and `after`, where there is a value.
pub(crate) fn append_framed(out: &mut String, before: &str, value: Option<&str>, after: &str)
    ensures
        final(out)@ == old(out)@ + framed(before@, text::opt_str(value), after@),
{
    match value {
        Some(v) => {
            out.append(before);
            out.append(v);
            out.append(after);
            assert(out@ =~= old(out)@ + (before@ + v@ + after@));
        },
        None => {
            assert(old(out)@ + Seq::<char>::empty() =~= old(out)@);
        },
    }
}

/// Appends a memory under its number.
fn append_memory(out: &mut String, number: usize, memory: &MemoryItem)
    ensures
        final(out)@ == old(out)@ + memory_line(number as nat, *memory),
{
    let number_text = decimal_text(number as u64);
    out.append(number_text.as_str());
    out.append(". [");
    match &memory.category {
        Some(c) => {
            out.append(c.as_str());
        },
        None => {
            out.append("未分类");
        },
    }
    out.append("] ");
    out.append(memory.content.as_str());
    append_framed(out, "（记于 ", borrowed(&memory.created_at), "）");
    out.append("\n");
    assert(out@ =~= old(out)@ + memory_line(number as nat, *memory));
}

/// The built-in rules as they are sent.
fn system_text() -> (r: String)
    ensures
        r@ == rules_text(system_rules()),
{
    let list = rules();
    let ghost all = system_rules();
    assert(list@.len() == all.len());
    let mut out = String::new();
    let mut i: usize = 0;
    assert(all.take(0) =~= Seq::<(Seq<char>, Seq<char>)>::empty());
    while i < list.len()
        invariant
            i <= list@.len(),
            list@.len() == all.len(),
            list@.map_values(|p: (&str, &str)| (p.0@, p.1@)) == all,
            out@ == rules_text(all.take(i as int)),
        decreases list@.len() - i,
    {
        let ghost before = out@;
        let rule = list[i];
        assert(all[i as int] == (rule.0@, rule.1@));
        if i > 0 {
            out.append("\n");
        }
        out.append("[");
        out.append(rule.0);
        out.append("] ");
        out.append(rule.1);
        proof {
            let so_far = all.take(i + 1);
            assert(so_far.drop_last() =~= all.take(i as int));
            if i > 0 {
                assert(out@ =~= before + "\n"@ + rule_line(all[i as int]));
            } else {
                assert(before =~= Seq::<char>::empty());
                assert(out@ =~= rule_line(all[i as int]));
            }
        }
        i = i + 1;
    }
    assert(all.take(all.len() as int) =~= all);
    out
}

/// The keys of the built-in rules.
fn rule_keys() -> (keys: Vec<String>)
    ensures
        text::texts(keys@) == system_rules().map_values(|r: (Seq<char>, Seq<char>)| r.0),
{
    let list = rules();
    let ghost all = system_rules();
    let mut keys: Vec<String> = Vec::new();
    let mut i: usize = 0;
    while i < list.len()
        invariant
            i <= list@.len(),
            list@.map_values(|p: (&str, &str)| (p.0@, p.1@)) == all,
            keys@.len() == i,
            forall|j: int| 0 <= j < i ==> (#[trigger] keys@[j])@ == all[j].0,
        decreases list@.len() - i,
    {
        assert(all[i as int] == (list@[i as int].0@, list@[i as int].1@));
        keys.push(list[i].0.to_owned());
        i = i + 1;
    }
    assert(list@.len() == all.len());
    assert(text::texts(keys@) =~= all.map_values(|r: (Seq<char>, Seq<char>)| r.0));
    keys
}

/// The context of a question.
fn context_text(req: &QaRequest) -> (ctx: String)
    ensures
        ctx@ == qa_context(*req),
{
    let mut ctx = String::new();
    ctx.append("人物：");
    ctx.append(req.person_name.as_str());
    append_framed(&mut ctx, "（关系：", borrowed(&req.relation), "）");
    ctx.append("\n");
    append_framed(&mut ctx, "视角：", borrowed(&req.perspective), "\n");
    append_framed(&mut ctx, "语气：", borrowed(&req.tone), "\n");
    assert(ctx@ =~= qa_head(*req));
    if req.memories.len() == 0 {
        ctx.append("（暂无可引用的记忆）\n");
        return ctx;
    }
    ctx.append("可引用的记忆：\n");
    let ghost start = ctx@;
    let mut i: usize = 0;
    assert(req.memories@.take(0) =~= Seq::<MemoryItem>::empty());
    assert(start + Seq::<char>::empty() =~= start);
    while i < req.memories.len()
        invariant
            i <= req.memories@.len(),
            ctx@ == start + memory_lines(req.memories@.take(i as int)),
        decreases req.memories@.len() - i,
    {
        append_memory(&mut ctx, i + 1, &req.memories[i]);
        proof {
            let so_far = req.memories@.take(i + 1);
            assert(so_far.drop_last() =~= req.memories@.take(i as int));
            assert(ctx@ =~= start + memory_lines(so_far));
        }
        i = i + 1;
    }
    assert(req.memories@.take(req.memories@.len() as int) =~= req.memories@);
    assert(ctx@ =~= qa_context(*req));
    ctx
}

/// `r` is the prompt for a question: the rules, the task, who it is about and
/// what is remembered, and the question itself; with what is on record of it.
pub open spec fn is_qa_prompt(req: QaRequest, r: ResolvedPrompt) -> bool {
    &&& r.system@ == rules_text(system_rules())
    &&& r.developer@ == QA_TASK@
    &&& r.user_context@ == qa_context(req)
    &&& r.user@ == req.question@
    &&& text::texts(r.audit.system_prompt_keys@) == system_rules().map_values(
        |rule: (Seq<char>, Seq<char>)| rule.0,
    )
    &&& r.audit.context_memory_count == req.memories@.len()
    &&& qa_size(req) <= usize::MAX ==> r.audit.sent_chars == qa_size(req)
}

/// Puts the prompt for a question together: the built-in rules, the task, the
/// context and the question itself. `sent_chars` is their size, where a
/// `usize` can hold it.
pub fn resolve_qa(req: &QaRequest) -> (r: ResolvedPrompt)
    ensures
        is_qa_prompt(*req, r),
{
    let system = system_text();
    let developer = QA_TASK.to_owned();
    let user_context = context_text(req);
    let user = req.question.clone();
    let sent_chars: usize = system.as_str().unicode_len().wrapping_add(
        developer.as_str().unicode_len(),
    ).wrapping_add(user_context.as_str().unicode_len()).wrapping_add(user.as_str().unicode_len());
    let audit = Audit {
        system_prompt_keys: rule_keys(),
        context_memory_count: req.memories.len(),
        sent_chars,
    };
    ResolvedPrompt { system, developer, user_context, user, audit }
}

/// A part of a part of `s` is a part of `s`.
pub proof fn lemma_occurs_within(part: Seq<char>, before: Seq<char>, s: Seq<char>, after: Seq<char>)
    requires
        text::occurs_in(part, s),
    ensures
        text::occurs_in(part, before + s + after),
{
    let i = choose|i: int| text::occurs_at(part, s, i);
    let whole = before + s + after;
    assert(whole.subrange(before.len() + i, before.len() + i + part.len()) =~= s.subrange(
        i,
        i + part.len(),
    ));
    assert(text::occurs_at(part, whole, before.len() + i));
}

proof fn lemma_occurs_in_itself(s: Seq<char>)
    ensures
        text::occurs_in(s, s),
{
    assert(s.subrange(0, s.len() as int) =~= s);
    assert(text::occurs_at(s, s, 0));
}

proof fn lemma_rule_is_sent(rules: Seq<(Seq<char>, Seq<char>)>, i: int)
    requires
        0 <= i < rules.len(),
    ensures
        text::occurs_in(rule_line(rules[i]), rules_text(rules)),
    decreases rules.len(),
{
    let none = Seq::<char>::empty();
    if i == rules.len() - 1 {
        lemma_occurs_in_itself(rule_line(rules[i]));
        if rules.len() > 1 {
            let before = rules_text(rules.drop_last()) + "\n"@;
            lemma_occurs_within(rule_line(rules[i]), before, rule_line(rules[i]), none);
            assert(before + rule_line(rules[i]) + none =~= rules_text(rules));
        }
    } else {
        lemma_rule_is_sent(rules.drop_last(), i);
        assert(rules.drop_last()[i] == rules[i]);
        let after = "\n"@ + rule_line(rules.last());
        lemma_occurs_within(rule_line(rules[i]), none, rules_text(rules.drop_last()), after);
        assert(none + rules_text(rules.drop_last()) + after =~= rules_text(rules));
    }
}

/// Every built-in rule is in the system layer of every prompt, whatever was
/// asked.
pub proof fn law_every_rule_is_sent(i: int)
    requires
        0 <= i < system_rules().len(),
    ensures
        text::occurs_in(rule_line(system_rules()[i]), rules_text(system_rules())),
{
    lemma_rule_is_sent(system_rules(), i);
}

proof fn lemma_memory_is_sent(memories: Seq<MemoryItem>, i: int)
    requires
        0 <= i < memories.len(),
    ensures
        text::occurs_in(memory_line((i + 1) as nat, memories[i]), memory_lines(memories)),
    decreases memories.len(),
{
    let none = Seq::<char>::empty();
    let line = memory_line((i + 1) as nat, memories[i]);
    let rest = memory_lines(memories.drop_last());
    if i == memories.len() - 1 {
        lemma_occurs_in_itself(line);
        lemma_occurs_within(line, rest, line, none);
        assert(rest + line + none =~= memory_lines(memories));
    } else {
        lemma_memory_is_sent(memories.drop_last(), i);
        assert(memories.drop_last()[i] == memories[i]);
        let after = memory_line(memories.len(), memories.last());
        lemma_occurs_within(line, none, rest, after);
        assert(none + rest + after =~= memory_lines(memories));
    }
}

proof fn lemma_content_in_line(number: nat, memory: MemoryItem)
    ensures
        text::occurs_in(memory.content@, memory_line(number, memory)),
{
    let category = match memory.category {
        Some(c) => c@,
        None => "未分类"@,
    };
    let head = text::decimal(number) + ". ["@ + category + "] "@;
    let tail = framed("（记于 "@, text::opt_text(memory.created_at), "）"@) + "\n"@;
    lemma_occurs_in_itself(memory.content@);
    lemma_occurs_within(memory.content@, head, memory.content@, tail);
    assert(head + memory.content@ + tail =~= memory_line(number, memory));
}

proof fn lemma_occurs_is_transitive(part: Seq<char>, middle: Seq<char>, whole: Seq<char>)
    requires
        text::occurs_in(part, middle),
        text::occurs_in(middle, whole),
    ensures
        text::occurs_in(part, whole),
{
    let k = choose|k: int| text::occurs_at(middle, whole, k);
    let left = whole.take(k);
    let right = whole.skip(k + middle.len());
    lemma_occurs_within(part, left, middle, right);
    assert(left + middle + right =~= whole);
}

/// Every memory of a request is in the context, under its number.
pub proof fn law_every_memory_is_sent(req: QaRequest, i: int)
    requires
        0 <= i < req.memories@.len(),
    ensures
        text::occurs_in(memory_line((i + 1) as nat, req.memories@[i]), qa_context(req)),
        text::occurs_in(req.memories@[i].content@, qa_context(req)),
{
    let none = Seq::<char>::empty();
    let line = memory_line((i + 1) as nat, req.memories@[i]);
    let before = qa_head(req) + "可引用的记忆：\n"@;
    let lines = memory_lines(req.memories@);
    assert(text::occurs_in(line, qa_context(req))) by {
        lemma_memory_is_sent(req.memories@, i);
        lemma_occurs_within(line, before, lines, none);
        assert(before + lines + none =~= qa_context(req));
    }
    lemma_content_in_line((i + 1) as nat, req.memories@[i]);
    lemma_occurs_is_transitive(req.memories@[i].content@, line, qa_context(req));
}

/// A question without memories says so.
pub proof fn law_no_memories_is_said(req: QaRequest)
    requires
        req.memories@.len() == 0,
    ensures
        text::occurs_in("（暂无可引用的记忆）\n"@, qa_context(req)),
{
    let none = Seq::<char>::empty();
    let notice = "（暂无可引用的记忆）\n"@;
    lemma_occurs_in_itself(notice);
    lemma_occurs_within(notice, qa_head(req), notice, none);
    assert(qa_head(req) + notice + none =~= qa_context(req));
}

/// No request changes the built-in rules or the task: they are the same for
/// all, and the keys of the rules are on record.
pub proof fn law_rules_are_the_same_for_all(
    a_req: QaRequest,
    a: ResolvedPrompt,
    b_req: QaRequest,
    b: ResolvedPrompt,
)
    requires
        is_qa_prompt(a_req, a),
        is_qa_prompt(b_req, b),
    ensures
        a.system@ == b.system@,
        a.developer@ == b.developer@,
        text::texts(a.audit.system_prompt_keys@) == text::texts(b.audit.system_prompt_keys@),
        text::texts(a.audit.system_prompt_keys@) == seq![
            "SYS.TRUTH_BOUNDARY"@,
            "SYS.NO_MINDREADING"@,
            "SYS.EMOTIONAL_TONE"@,
            "SYS.PRIVACY_MINIMAL_SEND"@,
            "SYS.RELATIONSHIP_FOCUS"@,
            "SYS.NO_HARM"@,
        ],
{
}

/// Two lists hold the same memories, text for text.
pub open spec fn same_memories(a: Seq<MemoryItem>, b: Seq<MemoryItem>) -> bool {
    a.len() == b.len() && forall|i: int|
        0 <= i < a.len() ==> (#[trigger] a[i]).content@ == b[i].content@ && text::opt_text(
            a[i].category,
        ) == text::opt_text(b[i].category) && text::opt_text(a[i].created_at) == text::opt_text(
            b[i].created_at,
        )
}

/// Two requests are about the same person, in the same relation, and ask for the
/// same perspective and tone.
pub open spec fn same_head(a: QaRequest, b: QaRequest) -> bool {
    &&& a.person_name@ == b.person_name@
    &&& text::opt_text(a.relation) == text::opt_text(b.relation)
    &&& text::opt_text(a.perspective) == text::opt_text(b.perspective)
    &&& text::opt_text(a.tone) == text::opt_text(b.tone)
}

proof fn lemma_same_lines(a: Seq<MemoryItem>, b: Seq<MemoryItem>)
    requires
        same_memories(a, b),
    ensures
        memory_lines(a) == memory_lines(b),
    decreases a.len(),
{
    if a.len() > 0 {
        let i = a.len() - 1;
        assert(a[i].content@ == b[i].content@);
        assert(same_memories(a.drop_last(), b.drop_last())) by {
            assert forall|j: int| 0 <= j < i implies (#[trigger] a.drop_last()[j]).content@
                == b.drop_last()[j].content@ && text::opt_text(a.drop_last()[j].category)
                == text::opt_text(b.drop_last()[j].category) && text::opt_text(
                a.drop_last()[j].created_at,
            ) == text::opt_text(b.drop_last()[j].created_at) by {
                assert(a[j].content@ == b[j].content@);
            }
        }
        lemma_same_lines(a.drop_last(), b.drop_last());
    }
}

/// The prompt depends neither on the scenario nor on the conversation so far:
/// requests that agree in all else have the same prompt, with the same record of
/// it, where a `usize` can hold its size.
pub proof fn law_prompt_ignores_scenario_and_history(
    a_req: QaRequest,
    a: ResolvedPrompt,
    b_req: QaRequest,
    b: ResolvedPrompt,
)
    requires
        same_head(a_req, b_req),
        same_memories(a_req.memories@, b_req.memories@),
        a_req.question@ == b_req.question@,
        is_qa_prompt(a_req, a),
        is_qa_prompt(b_req, b),
    ensures
        a.system@ == b.system@,
        a.developer@ == b.developer@,
        a.user_context@ == b.user_context@,
        a.user@ == b.user@,
        text::texts(a.audit.system_prompt_keys@) == text::texts(b.audit.system_prompt_keys@),
        a.audit.context_memory_count == b.audit.context_memory_count,
        qa_size(a_req) <= usize::MAX ==> a.audit.sent_chars == b.audit.sent_chars,
{
    lemma_same_lines(a_req.memories@, b_req.memories@);
}

/// One more memory, where there was one, appends exactly one numbered line to
/// the context, and its size and count grow by just that.
pub proof fn law_one_more_memory_is_one_more_line(
    a_req: QaRequest,
    a: ResolvedPrompt,
    b_req: QaRequest,
    b: ResolvedPrompt,
    memory: MemoryItem,
)
    requires
        a_req.memories@.len() > 0,
        same_head(a_req, b_req),
        same_memories(a_req.memories@.push(memory), b_req.memories@),
        a_req.question@ == b_req.question@,
        is_qa_prompt(a_req, a),
        is_qa_prompt(b_req, b),
    ensures
        ({
            let line = memory_line(a_req.memories@.len() + 1, memory);
            &&& qa_context(b_req) == qa_context(a_req) + line
            &&& b.user_context@ == a.user_context@ + line
            &&& qa_size(b_req) == qa_size(a_req) + line.len()
            &&& qa_size(b_req) <= usize::MAX ==> b.audit.sent_chars == a.audit.sent_chars
                + line.len()
            &&& b.audit.context_memory_count == a.audit.context_memory_count + 1
        }),
{
    let more = a_req.memories@.push(memory);
    let line = memory_line(a_req.memories@.len() + 1, memory);
    lemma_same_lines(more, b_req.memories@);
    assert(more.drop_last() =~= a_req.memories@);
    assert(memory_lines(more) == memory_lines(a_req.memories@) + line);
    assert(qa_head(a_req) == qa_head(b_req));
    assert(qa_context(b_req) =~= qa_context(a_req) + line);
}

/// How a memory is written: its number, its category or that it has none, its
/// content, and when it was noted, if that is known.
pub proof fn law_memory_lines_are_complete(number: nat, memory: MemoryItem)
    ensures
        ({
            let start = text::decimal(number) + ". ["@ + (match memory.category {
                Some(category) => category@,
                None => "未分类"@,
            }) + "] "@ + memory.content@;
            memory_line(number, memory) == match memory.created_at {
                Some(date) => start + "（记于 "@ + date@ + "）"@ + "\n"@,
                None => start + "\n"@,
            }
        }),
{
    let start = text::decimal(number) + ". ["@ + (match memory.category {
        Some(category) => category@,
        None => "未分类"@,
    }) + "] "@ + memory.content@;
    match memory.created_at {
        Some(date) => {
            assert(memory_line(number, memory) =~= start + "（记于 "@ + date@ + "）"@ + "\n"@);
        },
        None => {
            assert(memory_line(number, memory) =~= start + "\n"@);
        },
    }
}

/// The context of a question names the person, then the relation, the
/// perspective and the tone, as far as they are given, in this order; then come
/// the memories, or that there are none.
pub proof fn law_context_names_what_is_given(req: QaRequest)
    ensures
        ({
            let person = "人物："@ + req.person_name@ + (match req.relation {
                Some(relation) => "（关系："@ + relation@ + "）"@,
                None => Seq::empty(),
            }) + "\n"@;
            let perspective = match req.perspective {
                Some(perspective) => "视角："@ + perspective@ + "\n"@,
                None => Seq::empty(),
            };
            let tone = match req.tone {
                Some(tone) => "语气："@ + tone@ + "\n"@,
                None => Seq::empty(),
            };
            let memories = if req.memories@.len() == 0 {
                "（暂无可引用的记忆）\n"@
            } else {
                "可引用的记忆：\n"@ + memory_lines(req.memories@)
            };
            qa_context(req) == person + perspective + tone + memories
        }),
{
}

/// The size on record is that of all four texts that are sent.
pub proof fn law_size_counts_all_that_is_sent(req: QaRequest, r: ResolvedPrompt)
    requires
        is_qa_prompt(req, r),
        r.system@.len() + r.developer@.len() + r.user_context@.len() + r.user@.len() <= usize::MAX,
    ensures
        r.audit.sent_chars == r.system@.len() + r.developer@.len() + r.user_context@.len()
            + r.user@.len(),
        r.audit.context_memory_count == req.memories@.len(),
        r.user@ == req.question@,
{
}

/// Every rule stands on a line of its own, behind its key in brackets: one more
/// rule is one more line.
pub proof fn law_one_more_rule_is_one_more_line(
    rules: Seq<(Seq<char>, Seq<char>)>,
    key: Seq<char>,
    rule: Seq<char>,
)
    ensures
        rules.len() > 0 ==> rules_text(rules.push((key, rule))) == rules_text(rules) + "\n"@ + ("["@
            + key + "] "@ + rule),
        rules_text(seq![(key, rule)]) == "["@ + key + "] "@ + rule,
{
    assert(rules.push((key, rule)).drop_last() =~= rules);
    assert(rules.push((key, rule)).last() == (key, rule));
}

/// What every question is told: the six rules, word for word and in this order,
/// and the task.
pub proof fn law_what_every_question_is_told(req: QaRequest, r: ResolvedPrompt)
    requires
        is_qa_prompt(req, r),
    ensures
        r.system@ == rules_text(
            seq![
            (
                "SYS.TRUTH_BOUNDARY"@,
                "区分事实、记忆与推断；没有记忆不要编造关系或事件；每个结论标注来自哪条记忆或「缺少记忆」。"@,
            ),
            (
                "SYS.NO_MINDREADING"@,
                "不臆测对方内心、动机、是否爱/恨/出轨；只基于可观察的记忆。任何推测都标注「这是推测，建议直接沟通」，不下定论。"@,
            ),
            (
                "SYS.EMOTIONAL_TONE"@,
                "温暖、导向行动；不制造愧疚、审判、焦虑或施压；给出下一步，并保留正反馈。"@,
            ),
            (
                "SYS.PRIVACY_MINIMAL_SEND"@,
                "只使用本次随请求发送的内容；不要请求或假设未提供的资料。"@,
            ),
            (
                "SYS.RELATIONSHIP_FOCUS"@,
                "你是心上 AI，关系的理解者与守护者；只围绕用户最重要的人，不做泛聊天。"@,
            ),
            (
                "SYS.NO_HARM"@,
                "不提供操纵、监控、跟踪、套话手段；不做医疗或心理诊断；涉及风险建议温和、直接沟通或寻求专业帮助。"@,
            ),
            ],
        ),
        r.developer@
            == "任务：基于提供的记忆回答用户关于这个人的问题。\n输出契约：先给结论（标注来自哪条记忆或「缺少记忆」），再给一个温暖、可执行的下一步。\n记忆不足时直接说明缺什么、建议记录什么，绝不编造。"@,
{
    assert(system_rules() =~= seq![
            (
                "SYS.TRUTH_BOUNDARY"@,
                "区分事实、记忆与推断；没有记忆不要编造关系或事件；每个结论标注来自哪条记忆或「缺少记忆」。"@,
            ),
            (
                "SYS.NO_MINDREADING"@,
                "不臆测对方内心、动机、是否爱/恨/出轨；只基于可观察的记忆。任何推测都标注「这是推测，建议直接沟通」，不下定论。"@,
            ),
            (
                "SYS.EMOTIONAL_TONE"@,
                "温暖、导向行动；不制造愧疚、审判、焦虑或施压；给出下一步，并保留正反馈。"@,
            ),
            (
                "SYS.PRIVACY_MINIMAL_SEND"@,
                "只使用本次随请求发送的内容；不要请求或假设未提供的资料。"@,
            ),
            (
                "SYS.RELATIONSHIP_FOCUS"@,
                "你是心上 AI，关系的理解者与守护者；只围绕用户最重要的人，不做泛聊天。"@,
            ),
            (
                "SYS.NO_HARM"@,
                "不提供操纵、监控、跟踪、套话手段；不做医疗或心理诊断；涉及风险建议温和、直接沟通或寻求专业帮助。"@,
            ),
            ]);
}

/// The first memory has the number 1, and each further one the next number, on a
/// line of its own.
pub proof fn law_memories_are_numbered(memories: Seq<MemoryItem>, memory: MemoryItem)
    ensures
        memory_lines(Seq::empty()).len() == 0,
        memory_lines(memories.push(memory)) == memory_lines(memories) + memory_line(
            memories.len() + 1,
            memory,
        ),
{
    assert(memories.push(memory).drop_last() =~= memories);
}

} // verus!
