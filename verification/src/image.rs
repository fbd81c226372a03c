//! Asking for a picture.
use crate::ai::ARK_DEFAULT_BASE;
use crate::json::{Fields, Json, JsonTree};
use crate::settings::{self, Settings};
use vstd::prelude::*;

verus! {

/// What came of asking for a picture.
pub enum ImageOutcome {
    Url(String),
    NeedsConfig,
    Error(String),
}

/// The meaning of what came of it.
pub enum Picture {
    Url(Seq<char>),
    NeedsConfig,
    Error(Seq<char>),
}

impl View for ImageOutcome {
    type V = Picture;

    open spec fn view(&self) -> Picture {
        match *self {
            ImageOutcome::Url(s) => Picture::Url(s@),
            ImageOutcome::NeedsConfig => Picture::NeedsConfig,
            ImageOutcome::Error(s) => Picture::Error(s@),
        }
    }
}

/// Where and as whom to ask for pictures.
pub struct ImagePlan {
    pub url: String,
    pub key: String,
    pub model: String,
}

/// The meaning of a plan: address, key and model.
pub open spec fn image_plan_of(vars: Map<Seq<char>, Seq<char>>) -> Option<
    (Seq<char>, Seq<char>, Seq<char>),
> {
    let key = settings::either(
        settings::picked(vars, "AI_IMAGE_KEY"@),
        settings::picked(vars, "AI_API_KEY"@),
    );
    let model = settings::picked(vars, "AI_IMAGE_MODEL"@);
    let base = settings::or_else(
        settings::either(
            settings::picked(vars, "AI_IMAGE_BASE_URL"@),
            settings::picked(vars, "AI_BASE_URL"@),
        ),
        ARK_DEFAULT_BASE@,
    );
    match (key, model) {
        (Some(k), Some(m)) => Some((base + "/images/generations"@, k, m)),
        _ => None,
    }
}

/// Where and as whom to ask for pictures; `None` where no key or no model is
/// set.
pub fn image_plan(settings: &Settings) -> (r: Option<ImagePlan>)
    ensures
        match r {
            Some(plan) => image_plan_of(settings@) == Some((plan.url@, plan.key@, plan.model@)),
            None => image_plan_of(settings@) is None,
        },
{
    let key = match settings.pick_either("AI_IMAGE_KEY", "AI_API_KEY") {
        Some(key) => key,
        None => return None,
    };
    let model = match settings.pick("AI_IMAGE_MODEL") {
        Some(model) => model,
        None => return None,
    };
    let mut url = match settings.pick_either("AI_IMAGE_BASE_URL", "AI_BASE_URL") {
        Some(base) => base,
        None => ARK_DEFAULT_BASE.to_owned(),
    };
    url.append("/images/generations");
    Some(ImagePlan { url, key, model })
}

/// The request for a picture.
pub open spec fn image_json(model: Seq<char>, prompt: Seq<char>) -> JsonTree {
    JsonTree::Object(
        map![
            "model"@ => JsonTree::Text(model),
            "prompt"@ => JsonTree::Text(prompt),
            "n"@ => JsonTree::Int(1),
            "size"@ => JsonTree::Text("1024x1024"@),
        ],
    )
}

/// The request for a picture.
pub fn image_body(plan: &ImagePlan, prompt: &str) -> (body: Json)
    ensures
        body@ == image_json(plan.model@, prompt@),
{
    Fields::new().with("model", Json::text(plan.model.as_str())).with(
        "prompt",
        Json::text(prompt),
    ).with("n", Json::Unsigned(1)).with("size", Json::text("1024x1024")).object()
}

/// What asking for a picture brought.
pub enum ImageReply {
    /// A reply with a status of success.
    Answered(Json),
    /// A status of success, but no readable reply; why not.
    Garbled(String),
    /// Any other status, with the reply's body.
    Refused { status: String, body: String },
    /// No reply; why not.
    Unreachable(String),
}

/// The first picture in a reply: its address, or its contents as one.
pub open spec fn picture_in(reply: JsonTree) -> Picture {
    let first = match reply.member("data"@) {
        Some(data) => data.element(0),
        None => None,
    };
    match first {
        Some(picture) => match picture.text_under("url"@) {
            Some(url) => Picture::Url(url),
            None => match picture.text_under("b64_json"@) {
                Some(contents) => Picture::Url("data:image/png;base64,"@ + contents),
                None => Picture::Error("无图返回"@),
            },
        },
        None => Picture::Error("无图返回"@),
    }
}

/// What comes of a reply.
pub open spec fn picture_of(reply: ImageReply) -> Picture {
    match reply {
        ImageReply::Answered(json) => picture_in(json@),
        ImageReply::Garbled(why) => Picture::Error("解析失败: "@ + why@),
        ImageReply::Refused { status, body } => Picture::Error(
            "HTTP "@ + status@ + ": "@ + body@,
        ),
        ImageReply::Unreachable(why) => Picture::Error("请求失败: "@ + why@),
    }
}

/// The first picture in a reply.
fn first_picture(reply: &Json) -> (r: ImageOutcome)
    ensures
        r@ == picture_in(reply@),
{
    if let Some(data) = reply.get("data") {
        if let Some(picture) = data.at(0) {
            if let Some(url) = picture.text_under("url") {
                return ImageOutcome::Url(url.to_owned());
            }
            if let Some(contents) = picture.text_under("b64_json") {
                let mut url = "data:image/png;base64,".to_owned();
                url.append(contents);
                return ImageOutcome::Url(url);
            }
        }
    }
    ImageOutcome::Error("无图返回".to_owned())
}

/// What comes of a reply.
pub fn image_outcome(reply: ImageReply) -> (r: ImageOutcome)
    ensures
        r@ == picture_of(reply),
{
    match reply {
        ImageReply::Answered(json) => first_picture(&json),
        ImageReply::Garbled(why) => {
            let mut message = "解析失败: ".to_owned();
            message.append(why.as_str());
            ImageOutcome::Error(message)
        },
        ImageReply::Refused { status, body } => {
            let mut message = "HTTP ".to_owned();
            message.append(status.as_str());
            message.append(": ");
            message.append(body.as_str());
            ImageOutcome::Error(message)
        },
        ImageReply::Unreachable(why) => {
            let mut message = "请求失败: ".to_owned();
            message.append(why.as_str());
            ImageOutcome::Error(message)
        },
    }
}

/// A picture can be asked for where a key and a model are set, its own key before
/// the common one; at its own address, else the common one, else the vendor's.
pub proof fn law_pictures_need_key_and_model(vars: Map<Seq<char>, Seq<char>>)
    ensures
        image_plan_of(vars) is Some <==> (settings::picked(vars, "AI_IMAGE_KEY"@) is Some
            || settings::picked(vars, "AI_API_KEY"@) is Some) && settings::picked(
            vars,
            "AI_IMAGE_MODEL"@,
        ) is Some,
        image_plan_of(vars) matches Some((url, key, model)) ==> {
            &&& Some(model) == settings::picked(vars, "AI_IMAGE_MODEL"@)
            &&& settings::picked(vars, "AI_IMAGE_KEY"@) is Some ==> Some(key) == settings::picked(
                vars,
                "AI_IMAGE_KEY"@,
            )
            &&& settings::picked(vars, "AI_IMAGE_KEY"@) is None ==> Some(key) == settings::picked(
                vars,
                "AI_API_KEY"@,
            )
            &&& url == (match (
                settings::picked(vars, "AI_IMAGE_BASE_URL"@),
                settings::picked(vars, "AI_BASE_URL"@),
            ) {
                (Some(base), _) => base,
                (None, Some(base)) => base,
                (None, None) => "https://ark.cn-beijing.volces.com/api/v3"@,
            }) + "/images/generations"@
        },
{
}

/// The request for a picture names the model and the description, and asks for
/// one picture of 1024 by 1024.
pub proof fn law_picture_requests_are_complete(model: Seq<char>, description: Seq<char>)
    ensures
        image_json(model, description).text_under("model"@) == Some(model),
        image_json(model, description).text_under("prompt"@) == Some(description),
        image_json(model, description).member("n"@) == Some(JsonTree::Int(1)),
        image_json(model, description).text_under("size"@) == Some("1024x1024"@),
{
    reveal_strlit("model");
    reveal_strlit("prompt");
    reveal_strlit("n");
    reveal_strlit("size");
    assert("model"@.len() == 5 && "prompt"@.len() == 6 && "n"@.len() == 1 && "size"@.len() == 4);
}

/// The picture is the first in the reply: at its address if it has one, else as
/// its contents; without either, or without any picture, that is the error.
pub proof fn law_first_picture_counts(reply: JsonTree, data: JsonTree, picture: JsonTree)
    ensures
        reply.member("data"@) == Some(data) && data.element(0) == Some(picture) ==> {
            &&& picture.text_under("url"@) matches Some(url) ==> picture_in(reply) == Picture::Url(
                url,
            )
            &&& picture.text_under("url"@) is None ==> (picture.text_under(
                "b64_json"@,
            ) matches Some(contents) ==> picture_in(reply) == Picture::Url(
                "data:image/png;base64,"@ + contents,
            ))
            &&& picture.text_under("url"@) is None && picture.text_under("b64_json"@) is None
                ==> picture_in(reply) == Picture::Error("无图返回"@)
        },
        reply.member("data"@) is None ==> picture_in(reply) == Picture::Error("无图返回"@),
        reply.member("data"@) == Some(data) && data.element(0) is None ==> picture_in(reply)
            == Picture::Error("无图返回"@),
{
}

/// A reply that brings no picture says why.
pub proof fn law_failed_pictures_say_why(json: Json, why: String, status: String, body: String)
    ensures
        picture_of(ImageReply::Answered(json)) == picture_in(json@),
        picture_of(ImageReply::Garbled(why)) == Picture::Error("解析失败: "@ + why@),
        picture_of(ImageReply::Unreachable(why)) == Picture::Error("请求失败: "@ + why@),
        picture_of(ImageReply::Refused { status, body }) == Picture::Error(
            "HTTP "@ + status@ + ": "@ + body@,
        ),
{
}

} // verus!
