//! Prompts for suggestions of what to do for a person, and for writing on the
//! user's behalf.
use crate::prompt::{self, Audit, MemoryItem, ResolvedPrompt};
use crate::text::{self, borrowed, str_eq};
use vstd::prelude::*;

verus! {

/// Asks for suggestions. The scene is `romantic`, `share`, `express`, `micro`
/// or `occasion`.
pub struct InspireRequest {
    pub person_name: String,
    pub relation: Option<String>,
    pub scene: String,
    pub memories: Vec<MemoryItem>,
}

/// Asks for a text that can be sent as it is.
pub struct GhostwriteRequest {
    pub person_name: String,
    pub relation: Option<String>,
    pub action: String,
    pub memories: Vec<MemoryItem>,
}

pub const INSPIRE_SYS: &'static str =
    r#"你是心上 AI 的"关心顾问"。根据提供的心上人记忆，为指定场景生成 3 条具体可执行的关心行动建议。要求：①具体（不是"多关心"，而是"今晚发给 ta 那首 ta 说过很喜欢的歌"）②有温度（引用记忆细节；无记忆则给走心的通用建议）③好玩高级（不土气）④说明"这样做的理由"。严格返回 JSON：{"suggestions":[{"action":"...","why":"..."},{"action":"...","why":"..."},{"action":"...","why":"..."}]}"#;

pub const GHOSTWRITE_SYS: &'static str =
    r#"你是心上 AI 的代笔人。根据关心行动和对方记忆，写出一段可以直接发出去的文字。要求：①像用户自己写的，不像 AI（无"首先""此外"等书面语）②温暖自然，口语化③融入至少一个记忆细节④长度 50-120 字。直接输出文字内容，不加任何解释。"#;

/// How a scene is called in the prompt.
pub open spec fn label_of(scene: Seq<char>) -> Seq<char> {
    if scene == "romantic"@ {
        "浪漫一击（惊喜、甜蜜）"@
    } else if scene == "share"@ {
        "分享好东西（在想你）"@
    } else if scene == "express"@ {
        "说出口（表达爱意）"@
    } else if scene == "micro"@ {
        "小行动大感受（细心）"@
    } else if scene == "occasion"@ {
        "特殊时刻（仪式感）"@
    } else {
        "关心表达"@
    }
}

/// A memory as it is sent, with its category if it has one.
pub open spec fn bullet(memory: MemoryItem) -> Seq<char> {
    "- "@ + memory.content@ + prompt::framed(" ["@, text::opt_text(memory.category), "]"@) + "\n"@
}

/// Memories as they are sent, one per line.
pub open spec fn bullets(memories: Seq<MemoryItem>) -> Seq<char>
    decreases memories.len(),
{
    if memories.len() == 0 {
        Seq::empty()
    } else {
        bullets(memories.drop_last()) + bullet(memories.last())
    }
}

/// The memories, or that there are none.
pub open spec fn memories_text(memories: Seq<MemoryItem>) -> Seq<char> {
    if memories.len() == 0 {
        "暂无记录，请给走心的通用建议。\n"@
    } else {
        bullets(memories)
    }
}

/// Who this is about.
pub open spec fn header_text(name: Seq<char>, relation: Option<Seq<char>>) -> Seq<char> {
    "心上人："@ + name + prompt::framed("（"@, relation, "）"@)
}

/// The person and the memories.
pub open spec fn person_context(
    name: Seq<char>,
    relation: Option<Seq<char>>,
    memories: Seq<MemoryItem>,
) -> Seq<char> {
    header_text(name, relation) + "\n关于 ta 的记忆：\n"@ + memories_text(memories)
}

/// What is asked for a scene.
pub open spec fn inspire_question(scene: Seq<char>) -> Seq<char> {
    "场景："@ + label_of(scene) + "\n请生成 3 条专属行动建议，严格返回 JSON。"@
}

/// What is asked for an action.
pub open spec fn ghostwrite_question(action: Seq<char>) -> Seq<char> {
    "要做的关心行动："@ + action + "\n请帮我写出可以直接发给 ta 的文字。"@
}

/// The number of bytes of three texts.
pub open spec fn byte_size(a: Seq<char>, b: Seq<char>, c: Seq<char>) -> nat {
    vstd::utf8::encode_utf8(a).len() + vstd::utf8::encode_utf8(b).len() + vstd::utf8::encode_utf8(
        c,
    ).len()
}

/// How a scene is called in the prompt.
pub fn scene_label(scene: &str) -> (r: &'static str)
    ensures
        r@ == label_of(scene@),
{
    if str_eq(scene, "romantic") {
        "浪漫一击（惊喜、甜蜜）"
    } else if str_eq(scene, "share") {
        "分享好东西（在想你）"
    } else if str_eq(scene, "express") {
        "说出口（表达爱意）"
    } else if str_eq(scene, "micro") {
        "小行动大感受（细心）"
    } else if str_eq(scene, "occasion") {
        "特殊时刻（仪式感）"
    } else {
        "关心表达"
    }
}

/// The memories, or that there are none.
pub fn memories_block(memories: &[MemoryItem]) -> (r: String)
    ensures
        r@ == memories_text(memories@),
{
    if memories.len() == 0 {
        return "暂无记录，请给走心的通用建议。\n".to_owned();
    }
    let mut out = String::new();
    let mut i: usize = 0;
    assert(memories@.take(0) =~= Seq::<MemoryItem>::empty());
    while i < memories.len()
        invariant
            i <= memories@.len(),
            out@ == bullets(memories@.take(i as int)),
        decreases memories@.len() - i,
    {
        let ghost before = out@;
        out.append("- ");
        out.append(memories[i].content.as_str());
        prompt::append_framed(&mut out, " [", borrowed(&memories[i].category), "]");
        out.append("\n");
        proof {
            let so_far = memories@.take(i + 1);
            assert(so_far.drop_last() =~= memories@.take(i as int));
            assert(out@ =~= before + bullet(memories@[i as int]));
        }
        i = i + 1;
    }
    assert(memories@.take(memories@.len() as int) =~= memories@);
    out
}

/// Who this is about.
pub fn person_header(name: &str, relation: Option<&str>) -> (r: String)
    ensures
        r@ == header_text(name@, text::opt_str(relation)),
{
    let mut out = "心上人：".to_owned();
    out.append(name);
    prompt::append_framed(&mut out, "（", relation, "）");
    out
}

/// The person and the memories.
fn context_text(name: &str, relation: Option<&str>, memories: &[MemoryItem]) -> (r: String)
    ensures
        r@ == person_context(name@, text::opt_str(relation), memories@),
{
    let mut out = person_header(name, relation);
    out.append("\n关于 ta 的记忆：\n");
    let block = memories_block(memories);
    out.append(block.as_str());
    out
}

/// The prompt of three texts, with its size in bytes, where a `usize` can hold
/// that.
pub(crate) fn three_layers(
    system: &str,
    user_context: String,
    user: String,
    key: &str,
    memory_count: usize,
) -> (r: ResolvedPrompt)
    ensures
        r.system@ == system@,
        r.developer@ == Seq::<char>::empty(),
        r.user_context@ == user_context@,
        r.user@ == user@,
        text::texts(r.audit.system_prompt_keys@) == seq![key@],
        r.audit.context_memory_count == memory_count,
        byte_size(system@, user_context@, user@) <= usize::MAX ==> r.audit.sent_chars == byte_size(
            system@,
            user_context@,
            user@,
        ),
{
    let sent_chars: usize = system.as_bytes().len().wrapping_add(
        user_context.as_str().as_bytes().len(),
    ).wrapping_add(user.as_str().as_bytes().len());
    let keys = vec![key.to_owned()];
    assert(text::texts(keys@) =~= seq![key@]);
    let audit = Audit {
        system_prompt_keys: keys,
        context_memory_count: memory_count,
        sent_chars,
    };
    ResolvedPrompt {
        system: system.to_owned(),
        developer: String::new(),
        user_context,
        user,
        audit,
    }
}

/// `r` is the prompt for suggestions.
pub open spec fn is_inspire_prompt(req: InspireRequest, r: ResolvedPrompt) -> bool {
    &&& r.system@ == INSPIRE_SYS@
    &&& r.developer@ == Seq::<char>::empty()
    &&& r.user_context@ == person_context(
        req.person_name@,
        text::opt_text(req.relation),
        req.memories@,
    )
    &&& r.user@ == inspire_question(req.scene@)
    &&& text::texts(r.audit.system_prompt_keys@) == seq!["inspire"@]
    &&& r.audit.context_memory_count == req.memories@.len()
    &&& byte_size(r.system@, r.user_context@, r.user@) <= usize::MAX ==> r.audit.sent_chars
        == byte_size(r.system@, r.user_context@, r.user@)
}

/// The prompt for suggestions. `sent_chars` is its size in bytes, where a
/// `usize` can hold it.
pub fn resolve_inspire(req: &InspireRequest) -> (r: ResolvedPrompt)
    ensures
        is_inspire_prompt(*req, r),
{
    let user_context = context_text(req.person_name.as_str(), borrowed(&req.relation), &req.memories);
    let mut user = "场景：".to_owned();
    user.append(scene_label(req.scene.as_str()));
    user.append("\n请生成 3 条专属行动建议，严格返回 JSON。");
    three_layers(INSPIRE_SYS, user_context, user, "inspire", req.memories.len())
}

/// `r` is the prompt for a text to send.
pub open spec fn is_ghostwrite_prompt(req: GhostwriteRequest, r: ResolvedPrompt) -> bool {
    &&& r.system@ == GHOSTWRITE_SYS@
    &&& r.developer@ == Seq::<char>::empty()
    &&& r.user_context@ == person_context(
        req.person_name@,
        text::opt_text(req.relation),
        req.memories@,
    )
    &&& r.user@ == ghostwrite_question(req.action@)
    &&& text::texts(r.audit.system_prompt_keys@) == seq!["ghostwrite"@]
    &&& r.audit.context_memory_count == req.memories@.len()
    &&& byte_size(r.system@, r.user_context@, r.user@) <= usize::MAX ==> r.audit.sent_chars
        == byte_size(r.system@, r.user_context@, r.user@)
}

/// The prompt for writing on the user's behalf. `sent_chars` is its size in
/// bytes, where a `usize` can hold it.
pub fn resolve_ghostwrite(req: &GhostwriteRequest) -> (r: ResolvedPrompt)
    ensures
        is_ghostwrite_prompt(*req, r),
{
    let user_context = context_text(req.person_name.as_str(), borrowed(&req.relation), &req.memories);
    let mut user = "要做的关心行动：".to_owned();
    user.append(req.action.as_str());
    user.append("\n请帮我写出可以直接发给 ta 的文字。");
    three_layers(GHOSTWRITE_SYS, user_context, user, "ghostwrite", req.memories.len())
}

/// What a memory without and with a category looks like on its line.
pub open spec fn line_of(memory: MemoryItem) -> Seq<char> {
    match memory.category {
        Some(category) => "- "@ + memory.content@ + " ["@ + category@ + "]\n"@,
        None => "- "@ + memory.content@ + "\n"@,
    }
}

proof fn lemma_line(memory: MemoryItem)
    ensures
        bullet(memory) == line_of(memory),
{
    reveal_strlit("]");
    reveal_strlit("\n");
    reveal_strlit("]\n");
    assert("]"@ + "\n"@ =~= "]\n"@);
    assert(bullet(memory) =~= line_of(memory));
}

/// One more memory, where there was one, appends exactly one line to what is
/// sent of a person; the first stands alone; and without any that is said.
pub proof fn law_one_more_memory_is_one_more_bullet(
    name: Seq<char>,
    relation: Option<Seq<char>>,
    memories: Seq<MemoryItem>,
    memory: MemoryItem,
)
    ensures
        memories.len() > 0 ==> person_context(name, relation, memories.push(memory))
            == person_context(name, relation, memories) + line_of(memory),
        memories_text(seq![memory]) == line_of(memory),
        memories_text(Seq::empty()) == "暂无记录，请给走心的通用建议。\n"@,
        person_context(name, None, memories) == "心上人："@ + name + "\n关于 ta 的记忆：\n"@
            + memories_text(memories),
        relation matches Some(r) ==> person_context(name, relation, memories) == "心上人："@ + name
            + "（"@ + r + "）"@ + "\n关于 ta 的记忆：\n"@ + memories_text(memories),
{
    lemma_line(memory);
    assert(memories.push(memory).drop_last() =~= memories);
    assert(seq![memory].drop_last() =~= Seq::<MemoryItem>::empty());
    assert(seq![memory].last() == memory);
    assert(bullets(Seq::<MemoryItem>::empty()) =~= Seq::<char>::empty());
    assert(bullets(seq![memory]) == bullets(Seq::<MemoryItem>::empty()) + bullet(memory));
    assert(Seq::<char>::empty() + line_of(memory) =~= line_of(memory));
    if memories.len() > 0 {
        assert(person_context(name, relation, memories.push(memory)) =~= person_context(
            name,
            relation,
            memories,
        ) + line_of(memory));
    }
    assert(person_context(name, None, memories) =~= "心上人："@ + name + "\n关于 ta 的记忆：\n"@
        + memories_text(memories));
    if let Some(r) = relation {
        assert(person_context(name, relation, memories) =~= "心上人："@ + name + "（"@ + r + "）"@
            + "\n关于 ta 的记忆：\n"@ + memories_text(memories));
    }
}

proof fn lemma_bullet_is_sent(memories: Seq<MemoryItem>, i: int)
    requires
        0 <= i < memories.len(),
    ensures
        text::occurs_in(line_of(memories[i]), bullets(memories)),
    decreases memories.len(),
{
    let rest = memories.drop_last();
    let none = Seq::<char>::empty();
    let line = line_of(memories[i]);
    lemma_line(memories.last());
    if i == memories.len() - 1 {
        let at = bullets(rest).len() as int;
        assert(bullets(memories).subrange(at, at + line.len()) =~= line);
        assert(text::occurs_at(line, bullets(memories), at));
    } else {
        lemma_bullet_is_sent(rest, i);
        assert(rest[i] == memories[i]);
        prompt::lemma_occurs_within(line, none, bullets(rest), bullet(memories.last()));
        assert(none + bullets(rest) + bullet(memories.last()) =~= bullets(memories));
    }
}

/// Every memory of a request is in what is sent of a person, on a line of its
/// own.
pub proof fn law_every_memory_is_in_the_context(
    name: Seq<char>,
    relation: Option<Seq<char>>,
    memories: Seq<MemoryItem>,
    i: int,
)
    requires
        0 <= i < memories.len(),
    ensures
        text::occurs_in(line_of(memories[i]), person_context(name, relation, memories)),
{
    let none = Seq::<char>::empty();
    let before = header_text(name, relation) + "\n关于 ta 的记忆：\n"@;
    lemma_bullet_is_sent(memories, i);
    prompt::lemma_occurs_within(line_of(memories[i]), before, bullets(memories), none);
    assert(before + bullets(memories) + none =~= person_context(name, relation, memories));
}

/// What is asked for each of the five scenes, and for any other.
pub proof fn law_scenes_are_named(scene: Seq<char>)
    ensures
        scene == "romantic"@ ==> inspire_question(scene) == "场景："@ + "浪漫一击（惊喜、甜蜜）"@
            + "\n请生成 3 条专属行动建议，严格返回 JSON。"@,
        scene == "share"@ ==> inspire_question(scene) == "场景："@ + "分享好东西（在想你）"@
            + "\n请生成 3 条专属行动建议，严格返回 JSON。"@,
        scene == "express"@ ==> inspire_question(scene) == "场景："@ + "说出口（表达爱意）"@
            + "\n请生成 3 条专属行动建议，严格返回 JSON。"@,
        scene == "micro"@ ==> inspire_question(scene) == "场景："@ + "小行动大感受（细心）"@
            + "\n请生成 3 条专属行动建议，严格返回 JSON。"@,
        scene == "occasion"@ ==> inspire_question(scene) == "场景："@ + "特殊时刻（仪式感）"@
            + "\n请生成 3 条专属行动建议，严格返回 JSON。"@,
        scene != "romantic"@ && scene != "share"@ && scene != "express"@ && scene != "micro"@
            && scene != "occasion"@ ==> inspire_question(scene) == "场景："@ + "关心表达"@
            + "\n请生成 3 条专属行动建议，严格返回 JSON。"@,
{
    reveal_strlit("romantic");
    reveal_strlit("share");
    reveal_strlit("express");
    reveal_strlit("micro");
    reveal_strlit("occasion");
    assert("romantic"@.len() == 8 && "share"@.len() == 5 && "express"@.len() == 7 && "micro"@.len()
        == 5 && "occasion"@.len() == 8);
    assert("romantic"@[0] == 'r' && "occasion"@[0] == 'o' && "share"@[0] == 's' && "micro"@[0]
        == 'm');
}

/// The action that a text is asked for stands in the request for it.
pub proof fn law_action_is_asked_for(action: Seq<char>)
    ensures
        ghostwrite_question(action) == "要做的关心行动："@ + action
            + "\n请帮我写出可以直接发给 ta 的文字。"@,
{
}

/// What is on record of the prompts for suggestions and texts: one key, the
/// number of memories, and the bytes of all that is sent.
pub proof fn law_inspire_records(
    i_req: InspireRequest,
    i: ResolvedPrompt,
    g_req: GhostwriteRequest,
    g: ResolvedPrompt,
)
    requires
        is_inspire_prompt(i_req, i),
        is_ghostwrite_prompt(g_req, g),
    ensures
        text::texts(i.audit.system_prompt_keys@) == seq!["inspire"@],
        text::texts(g.audit.system_prompt_keys@) == seq!["ghostwrite"@],
        i.audit.context_memory_count == i_req.memories@.len(),
        g.audit.context_memory_count == g_req.memories@.len(),
        i.developer@.len() == 0 && g.developer@.len() == 0,
        vstd::utf8::encode_utf8(i.system@).len() + vstd::utf8::encode_utf8(i.user_context@).len()
            + vstd::utf8::encode_utf8(i.user@).len() <= usize::MAX ==> i.audit.sent_chars
            == vstd::utf8::encode_utf8(i.system@).len() + vstd::utf8::encode_utf8(
            i.user_context@,
        ).len() + vstd::utf8::encode_utf8(i.user@).len(),
        vstd::utf8::encode_utf8(g.system@).len() + vstd::utf8::encode_utf8(g.user_context@).len()
            + vstd::utf8::encode_utf8(g.user@).len() <= usize::MAX ==> g.audit.sent_chars
            == vstd::utf8::encode_utf8(g.system@).len() + vstd::utf8::encode_utf8(
            g.user_context@,
        ).len() + vstd::utf8::encode_utf8(g.user@).len(),
{
}

/// What the model is told to be, word for word, for suggestions and for texts.
pub proof fn law_what_the_adviser_is_told(
    i_req: InspireRequest,
    i: ResolvedPrompt,
    g_req: GhostwriteRequest,
    g: ResolvedPrompt,
)
    requires
        is_inspire_prompt(i_req, i),
        is_ghostwrite_prompt(g_req, g),
    ensures
        i.system@
            == r#"你是心上 AI 的"关心顾问"。根据提供的心上人记忆，为指定场景生成 3 条具体可执行的关心行动建议。要求：①具体（不是"多关心"，而是"今晚发给 ta 那首 ta 说过很喜欢的歌"）②有温度（引用记忆细节；无记忆则给走心的通用建议）③好玩高级（不土气）④说明"这样做的理由"。严格返回 JSON：{"suggestions":[{"action":"...","why":"..."},{"action":"...","why":"..."},{"action":"...","why":"..."}]}"#@,
        g.system@
            == r#"你是心上 AI 的代笔人。根据关心行动和对方记忆，写出一段可以直接发出去的文字。要求：①像用户自己写的，不像 AI（无"首先""此外"等书面语）②温暖自然，口语化③融入至少一个记忆细节④长度 50-120 字。直接输出文字内容，不加任何解释。"#@,
        i.user_context@ == person_context(
            i_req.person_name@,
            text::opt_text(i_req.relation),
            i_req.memories@,
        ),
        g.user_context@ == person_context(
            g_req.person_name@,
            text::opt_text(g_req.relation),
            g_req.memories@,
        ),
        i.user@ == inspire_question(i_req.scene@),
        g.user@ == ghostwrite_question(g_req.action@),
{
}

} // verus!
