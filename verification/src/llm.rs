//! The prompt model: an ordered list of typed messages.

use vstd::prelude::*;
use vstd::string::*;

verus! {

/// One part of a user message.
#[derive(Debug, PartialEq, Eq)]
pub enum ContentItem {
    Text { text: String },
    Image { image_base64_webp: String },
}

/// What a [`ContentItem`] holds, as mathematical values.
pub enum ContentItemView {
    Text { text: Seq<char> },
    Image { image_base64_webp: Seq<char> },
}

impl View for ContentItem {
    type V = ContentItemView;

    open spec fn view(&self) -> ContentItemView {
        match self {
            ContentItem::Text { text } => ContentItemView::Text { text: text@ },
            ContentItem::Image { image_base64_webp } => ContentItemView::Image {
                image_base64_webp: image_base64_webp@,
            },
        }
    }
}

impl DeepView for ContentItem {
    type V = ContentItemView;

    open spec fn deep_view(&self) -> ContentItemView {
        self@
    }
}

impl Clone for ContentItem {
    fn clone(&self) -> (res: Self)
        ensures
            res@ == self@,
    {
        match self {
            ContentItem::Text { text } => ContentItem::Text { text: text.clone() },
            ContentItem::Image { image_base64_webp } => ContentItem::Image {
                image_base64_webp: image_base64_webp.clone(),
            },
        }
    }
}

/// The content of a user message: an ordered list of parts.
#[derive(Debug, PartialEq, Eq)]
pub struct Content {
    pub items: Vec<ContentItem>,
}

impl View for Content {
    type V = Seq<ContentItemView>;

    open spec fn view(&self) -> Seq<ContentItemView> {
        self.items.deep_view()
    }
}

impl Clone for Content {
    fn clone(&self) -> (res: Self)
        ensures
            res@ == self@,
    {
        let items = self.items.clone();
        Content { items }
    }
}

impl From<Vec<ContentItem>> for Content {
    fn from(items: Vec<ContentItem>) -> (res: Self) {
        Content { items }
    }
}

impl vstd::std_specs::convert::FromSpecImpl<Vec<ContentItem>> for Content {
    open spec fn obeys_from_spec() -> bool {
        true
    }

    open spec fn from_spec(items: Vec<ContentItem>) -> Self {
        Content { items }
    }
}

impl From<String> for Content {
    /// A content that holds the given text as its only part.
    fn from(text: String) -> (res: Self)
        ensures
            res@ == seq![ContentItemView::Text { text: text@ }],
    {
        let mut items: Vec<ContentItem> = Vec::new();
        items.push(ContentItem::Text { text });
        Content { items }
    }
}

impl vstd::std_specs::convert::FromSpecImpl<String> for Content {
    open spec fn obeys_from_spec() -> bool {
        false
    }

    open spec fn from_spec(text: String) -> Self {
        arbitrary()
    }
}

/// One message of a prompt.
#[derive(Debug, PartialEq, Eq)]
pub enum PromptItem {
    User { content: Content },
    System { text: String },
    Assistant { text: String },
}

/// What a [`PromptItem`] holds, as mathematical values.
pub enum PromptItemView {
    User { content: Seq<ContentItemView> },
    System { text: Seq<char> },
    Assistant { text: Seq<char> },
}

impl View for PromptItem {
    type V = PromptItemView;

    open spec fn view(&self) -> PromptItemView {
        match self {
            PromptItem::User { content } => PromptItemView::User { content: content@ },
            PromptItem::System { text } => PromptItemView::System { text: text@ },
            PromptItem::Assistant { text } => PromptItemView::Assistant { text: text@ },
        }
    }
}

impl DeepView for PromptItem {
    type V = PromptItemView;

    open spec fn deep_view(&self) -> PromptItemView {
        self@
    }
}

impl Clone for PromptItem {
    fn clone(&self) -> (res: Self)
        ensures
            res@ == self@,
    {
        match self {
            PromptItem::User { content } => PromptItem::User { content: content.clone() },
            PromptItem::System { text } => PromptItem::System { text: text.clone() },
            PromptItem::Assistant { text } => PromptItem::Assistant { text: text.clone() },
        }
    }
}

/// An ordered sequence of messages; later items are more recent.
#[derive(Debug, PartialEq, Eq)]
pub struct Prompt {
    pub items: Vec<PromptItem>,
}

impl View for Prompt {
    type V = Seq<PromptItemView>;

    open spec fn view(&self) -> Seq<PromptItemView> {
        self.items.deep_view()
    }
}

impl Clone for Prompt {
    fn clone(&self) -> (res: Self)
        ensures
            res@ == self@,
    {
        Prompt { items: clone_items(&self.items) }
    }
}

impl From<Vec<PromptItem>> for Prompt {
    fn from(items: Vec<PromptItem>) -> (res: Self) {
        Prompt { items }
    }
}

impl vstd::std_specs::convert::FromSpecImpl<Vec<PromptItem>> for Prompt {
    open spec fn obeys_from_spec() -> bool {
        true
    }

    open spec fn from_spec(items: Vec<PromptItem>) -> Self {
        Prompt { items }
    }
}

/// A copy of a list of messages that holds the same values in the same order.
pub fn clone_items(items: &Vec<PromptItem>) -> (res: Vec<PromptItem>)
    ensures
        res.deep_view() == items.deep_view(),
{
    let res = items.clone();
    res
}

/// How closely the model looks at an image.
#[derive(Clone, Copy, Debug, PartialEq, Eq, Structural)]
pub enum ImageDetail {
    Auto,
    Low,
    High,
}

/// One part of a rendered user message.
#[derive(Debug, PartialEq, Eq)]
pub enum MessagePart {
    Text { text: String },
    ImageUrl { url: String, detail: ImageDetail },
}

/// What a [`MessagePart`] holds, as mathematical values.
pub enum MessagePartView {
    Text { text: Seq<char> },
    ImageUrl { url: Seq<char>, detail: ImageDetail },
}

impl View for MessagePart {
    type V = MessagePartView;

    open spec fn view(&self) -> MessagePartView {
        match self {
            MessagePart::Text { text } => MessagePartView::Text { text: text@ },
            MessagePart::ImageUrl { url, detail } => MessagePartView::ImageUrl {
                url: url@,
                detail: *detail,
            },
        }
    }
}

impl DeepView for MessagePart {
    type V = MessagePartView;

    open spec fn deep_view(&self) -> MessagePartView {
        self@
    }
}

/// One message as it is sent to the model: a role and what is said.
#[derive(Debug, PartialEq, Eq)]
pub enum Message {
    /// A message of the system.
    System { text: String },
    /// A message of the user that is plain text.
    UserText { text: String },
    /// A message of the user that is a list of parts.
    UserParts { parts: Vec<MessagePart> },
    /// A message of the model.
    Assistant { text: String },
}

/// What a [`Message`] holds, as mathematical values.
pub enum MessageView {
    System { text: Seq<char> },
    UserText { text: Seq<char> },
    UserParts { parts: Seq<MessagePartView> },
    Assistant { text: Seq<char> },
}

impl View for Message {
    type V = MessageView;

    open spec fn view(&self) -> MessageView {
        match self {
            Message::System { text } => MessageView::System { text: text@ },
            Message::UserText { text } => MessageView::UserText { text: text@ },
            Message::UserParts { parts } => MessageView::UserParts { parts: parts.deep_view() },
            Message::Assistant { text } => MessageView::Assistant { text: text@ },
        }
    }
}

impl DeepView for Message {
    type V = MessageView;

    open spec fn deep_view(&self) -> MessageView {
        self@
    }
}

/// The sampling temperature of a request.
#[derive(Clone, Copy, Debug, PartialEq, Eq, Structural)]
pub enum Temperature {
    /// The request names no temperature.
    Unset,
    /// The request asks for the temperature zero.
    Zero,
}

/// A request for a chat completion, as plain values.
#[derive(Debug, PartialEq, Eq)]
pub struct ChatRequest {
    pub model: String,
    pub messages: Vec<Message>,
    pub temperature: Temperature,
}

/// What a [`ChatRequest`] holds, as mathematical values.
pub struct ChatRequestView {
    pub model: Seq<char>,
    pub messages: Seq<MessageView>,
    pub temperature: Temperature,
}

impl View for ChatRequest {
    type V = ChatRequestView;

    open spec fn view(&self) -> ChatRequestView {
        ChatRequestView {
            model: self.model@,
            messages: self.messages.deep_view(),
            temperature: self.temperature,
        }
    }
}

/// Whether a model belongs to the reasoning class: such a model takes no
/// temperature and no messages of the system.
pub open spec fn is_reasoning_model(model: Seq<char>) -> bool {
    model == "o1-mini"@ || model == "o1-preview"@
}

/// The address that carries an image inside a message.
pub open spec fn image_url(image_base64_webp: Seq<char>) -> Seq<char> {
    "data:image/webp;base64,"@ + image_base64_webp
}

/// A part of a user message as it is sent: text stays text, an image becomes
/// an address that the model looks at in high detail.
pub open spec fn render_part(item: ContentItemView) -> MessagePartView {
    match item {
        ContentItemView::Text { text } => MessagePartView::Text { text },
        ContentItemView::Image { image_base64_webp } => MessagePartView::ImageUrl {
            url: image_url(image_base64_webp),
            detail: ImageDetail::High,
        },
    }
}

/// A message as it is sent. A model of the reasoning class gets the messages
/// of the system as text of the user.
pub open spec fn render_item(item: PromptItemView, reasoning: bool) -> MessageView {
    match item {
        PromptItemView::User { content } => MessageView::UserParts {
            parts: content.map_values(|part: ContentItemView| render_part(part)),
        },
        PromptItemView::System { text } => if reasoning {
            MessageView::UserText { text }
        } else {
            MessageView::System { text }
        },
        PromptItemView::Assistant { text } => MessageView::Assistant { text },
    }
}

/// A prompt as it is sent: message by message, in order.
pub open spec fn render_prompt(items: Seq<PromptItemView>, reasoning: bool) -> Seq<MessageView> {
    items.map_values(|item: PromptItemView| render_item(item, reasoning))
}

/// The request that carries `prompt` to `model`. A model of the reasoning
/// class gets no temperature; any other gets the temperature zero.
pub open spec fn chat_request(model: Seq<char>, prompt: Seq<PromptItemView>) -> ChatRequestView {
    ChatRequestView {
        model,
        messages: render_prompt(prompt, is_reasoning_model(model)),
        temperature: if is_reasoning_model(model) {
            Temperature::Unset
        } else {
            Temperature::Zero
        },
    }
}

/// What rendering depends on: the model that the prompt goes to.
#[derive(Debug, PartialEq, Eq)]
pub struct RenderCtx {
    pub model: String,
}

impl RenderCtx {
    /// Whether the model belongs to the reasoning class.
    pub fn is_reasoning(&self) -> (reasoning: bool)
        ensures
            reasoning == is_reasoning_model(self.model@),
    {
        self.model == "o1-mini".to_owned() || self.model == "o1-preview".to_owned()
    }
}

impl ContentItem {
    /// The part as it is sent.
    pub fn render(&self) -> (part: MessagePart)
        ensures
            part@ == render_part(self@),
    {
        match self {
            ContentItem::Text { text } => MessagePart::Text { text: text.clone() },
            ContentItem::Image { image_base64_webp } => {
                let mut url = "data:image/webp;base64,".to_owned();
                url.append(image_base64_webp.as_str());
                MessagePart::ImageUrl { url, detail: ImageDetail::High }
            },
        }
    }
}

impl Content {
    /// The parts as they are sent, in order.
    pub fn render(&self) -> (parts: Vec<MessagePart>)
        ensures
            parts.deep_view() == self@.map_values(|part: ContentItemView| render_part(part)),
    {
        let mut parts: Vec<MessagePart> = Vec::new();
        let mut i: usize = 0;
        while i < self.items.len()
            invariant
                i <= self.items@.len(),
                parts@.len() == i,
                forall|j: int| 0 <= j < i ==> (#[trigger] parts@[j])@ == render_part(self.items@[j]@),
            decreases self.items@.len() - i,
        {
            parts.push(self.items[i].render());
            i += 1;
        }
        parts
    }
}

impl PromptItem {
    /// The message as it is sent to the model of `ctx`.
    pub fn render(&self, ctx: &RenderCtx) -> (message: Message)
        ensures
            message@ == render_item(self@, is_reasoning_model(ctx.model@)),
    {
        match self {
            PromptItem::User { content } => Message::UserParts { parts: content.render() },
            PromptItem::System { text } => {
                if ctx.is_reasoning() {
                    Message::UserText { text: text.clone() }
                } else {
                    Message::System { text: text.clone() }
                }
            },
            PromptItem::Assistant { text } => Message::Assistant { text: text.clone() },
        }
    }
}

impl Prompt {
    /// The messages as they are sent to the model of `ctx`, in order.
    pub fn render(&self, ctx: &RenderCtx) -> (messages: Vec<Message>)
        ensures
            messages.deep_view() == render_prompt(self@, is_reasoning_model(ctx.model@)),
    {
        let mut messages: Vec<Message> = Vec::new();
        let mut i: usize = 0;
        while i < self.items.len()
            invariant
                i <= self.items@.len(),
                messages@.len() == i,
                forall|j: int|
                    0 <= j < i ==> (#[trigger] messages@[j])@ == render_item(
                        self.items@[j]@,
                        is_reasoning_model(ctx.model@),
                    ),
            decreases self.items@.len() - i,
        {
            messages.push(self.items[i].render(ctx));
            i += 1;
        }
        messages
    }
}

/// The request that carries `prompt` to `model`.
pub fn build_request(model: &str, prompt: &Prompt) -> (request: ChatRequest)
    ensures
        request@ == chat_request(model@, prompt@),
{
    let ctx = RenderCtx { model: model.to_owned() };
    let messages = prompt.render(&ctx);
    let temperature = if ctx.is_reasoning() {
        Temperature::Unset
    } else {
        Temperature::Zero
    };
    ChatRequest { model: ctx.model, messages, temperature }
}

/// Why a prompt got no completion.
#[derive(Debug, PartialEq, Eq)]
pub enum PromptError {
    /// The request failed; the message says how.
    OpenAI { message: String },
    /// The response held no text.
    MissingCompletion,
}

/// The text of the first choice of a response, if it holds any.
pub fn first_completion(content: Option<String>) -> (result: Result<String, PromptError>)
    ensures
        match content {
            Some(text) => result == Ok::<String, PromptError>(text),
            None => result == Err::<String, PromptError>(PromptError::MissingCompletion),
        },
{
    match content {
        Some(text) => Ok(text),
        None => Err(PromptError::MissingCompletion),
    }
}

/// The longest that one prompt is retried for, in seconds.
pub const MAX_ELAPSED_TIME_IN_SECS: u64 = 60;

/// The error code with which the service says that it is asked too often.
pub const RATE_LIMIT_CODE: &'static str = "rate_limit_exceeded";

/// Whether a failed request is worth another try: only where the service
/// answered with an error whose code says that the rate limit was exceeded.
/// `None` stands for a failure without such a code.
pub open spec fn is_transient(code: Option<Seq<char>>) -> bool {
    code == Some(RATE_LIMIT_CODE@)
}

/// Whether a failed request is worth another try.
pub fn is_retryable(code: Option<&str>) -> (retry: bool)
    ensures
        retry == is_transient(
            match code {
                Some(code) => Some(code@),
                None => None,
            },
        ),
{
    match code {
        Some(code) => code.to_owned() == RATE_LIMIT_CODE.to_owned(),
        None => false,
    }
}

/// The sixty-four digits of base64, in order of their value.
pub const BASE64_ALPHABET: &'static str =
    "ABCDEFGHIJKLMNOPQRSTUVWXYZabcdefghijklmnopqrstuvwxyz0123456789+/";

/// The digit that stands for a value below sixty-four.
pub open spec fn base64_digit(value: int) -> char {
    BASE64_ALPHABET@[value]
}

/// The bytes in base64 with the standard alphabet and padding: each group of
/// three bytes gives four digits of six bits; a last group of one or two bytes
/// is filled up with zero bits and closed with `=`.
pub open spec fn base64(bytes: Seq<u8>) -> Seq<char>
    decreases bytes.len(),
{
    if bytes.len() == 0 {
        Seq::empty()
    } else {
        let a = bytes[0] as int;
        let b = if bytes.len() > 1 {
            bytes[1] as int
        } else {
            0
        };
        let c = if bytes.len() > 2 {
            bytes[2] as int
        } else {
            0
        };
        let first = base64_digit(a / 4);
        let second = base64_digit(a % 4 * 16 + b / 16);
        let third = base64_digit(b % 16 * 4 + c / 64);
        let fourth = base64_digit(c % 64);
        if bytes.len() == 1 {
            seq![first, second, '=', '=']
        } else if bytes.len() == 2 {
            seq![first, second, third, '=']
        } else {
            seq![first, second, third, fourth] + base64(bytes.skip(3))
        }
    }
}

/// Whether the base64 form of `n` bytes fits into a string.
pub open spec fn fits_base64(n: nat) -> bool {
    n / 3 * 4 + 4 <= usize::MAX
}

/// Calls `base64::Engine::encode` on the engine `STANDARD`, which encodes with
/// the standard alphabet and with padding. The engine panics where the length
/// of the result overflows; such inputs are left out.
#[verifier::external_body]
fn base64_encode(bytes: &Vec<u8>) -> (text: String)
    requires
        fits_base64(bytes@.len()),
    ensures
        text@ == base64(bytes@),
{
    base64::Engine::encode(&base64::engine::general_purpose::STANDARD, bytes)
}

/// What the lossless WebP encoder of the `image` crate makes of an RGBA image
/// with the given pixels and size: the encoded image, or the message with
/// which it refuses the size.
pub uninterp spec fn webp_lossless(raw: Seq<u8>, width: u32, height: u32) -> Result<
    Seq<u8>,
    Seq<char>,
>;

/// What the encoder handed back, as mathematical values.
pub open spec fn encoded_view(encoded: Result<Vec<u8>, String>) -> Result<Seq<u8>, Seq<char>> {
    match encoded {
        Ok(bytes) => Ok(bytes@),
        Err(message) => Err(message@),
    }
}

/// Calls `WebPEncoder::new_lossless` and `ImageEncoder::write_image` of the
/// `image` crate with the color type `Rgba8`. The encoder panics unless the
/// buffer holds four bytes for each pixel; such inputs are left out. An error
/// comes back as its message.
#[verifier::external_body]
fn encode_webp_lossless(raw: &Vec<u8>, width: u32, height: u32) -> (encoded: Result<
    Vec<u8>,
    String,
>)
    requires
        raw@.len() == width as int * height as int * 4,
    ensures
        encoded_view(encoded) == webp_lossless(raw@, width, height),
{
    let mut out = Vec::new();
    let encoder = image::codecs::webp::WebPEncoder::new_lossless(&mut out);
    image::ImageEncoder::write_image(encoder, raw, width, height, image::ColorType::Rgba8)
        .map_err(|e| e.to_string())?;
    Ok(out)
}

/// An image of `width` by `height` pixels, four bytes for each pixel: red,
/// green, blue and alpha, row by row.
#[derive(Debug, PartialEq, Eq)]
pub struct RgbaImage {
    width: u32,
    height: u32,
    raw: Vec<u8>,
}

/// What an [`RgbaImage`] holds, as mathematical values.
pub struct RgbaImageView {
    pub width: u32,
    pub height: u32,
    pub raw: Seq<u8>,
}

impl View for RgbaImage {
    type V = RgbaImageView;

    closed spec fn view(&self) -> RgbaImageView {
        RgbaImageView { width: self.width, height: self.height, raw: self.raw@ }
    }
}

impl RgbaImage {
    #[verifier::type_invariant]
    spec fn four_bytes_per_pixel(self) -> bool {
        self.raw@.len() == self.width as int * self.height as int * 4
    }

    /// The image with the given size and pixels, if there are four bytes for
    /// each pixel.
    pub fn new(width: u32, height: u32, raw: Vec<u8>) -> (image: Option<RgbaImage>)
        ensures
            image is Some <==> raw@.len() == width as int * height as int * 4,
            image matches Some(image) ==> image@ == (RgbaImageView { width, height, raw: raw@ }),
    {
        assert(width as int * height as int * 4 <= 0x4_0000_0000_0000_0000) by (nonlinear_arith)
            requires
                width <= 0xffff_ffff,
                height <= 0xffff_ffff,
        ;
        assert(width as int * height as int <= 0x1_0000_0000_0000_0000) by (nonlinear_arith)
            requires
                width <= 0xffff_ffff,
                height <= 0xffff_ffff,
        ;
        let pixels: u128 = width as u128 * height as u128;
        let expected: u128 = pixels * 4;
        if raw.len() as u128 == expected {
            Some(RgbaImage { width, height, raw })
        } else {
            None
        }
    }

    /// The width in pixels.
    pub fn width(&self) -> (width: u32)
        ensures
            width == self@.width,
    {
        self.width
    }

    /// The height in pixels.
    pub fn height(&self) -> (height: u32)
        ensures
            height == self@.height,
    {
        self.height
    }

    /// The pixels, four bytes each, row by row.
    pub fn as_raw(&self) -> (raw: &Vec<u8>)
        ensures
            raw@ == self@.raw,
            raw@.len() == self@.width as int * self@.height as int * 4,
    {
        proof {
            use_type_invariant(self);
        }
        &self.raw
    }
}

/// The part that carries an image, given what the encoder made of it: the
/// encoded image in base64, or the message of the encoder.
pub open spec fn image_item(encoded: Result<Seq<u8>, Seq<char>>) -> Result<
    ContentItemView,
    Seq<char>,
> {
    match encoded {
        Ok(bytes) => if fits_base64(bytes.len()) {
            Ok(ContentItemView::Image { image_base64_webp: base64(bytes) })
        } else {
            Err("the encoded image is too large"@)
        },
        Err(message) => Err(message),
    }
}

/// A part or the message that stands in its place, as mathematical values.
pub open spec fn item_result_view(result: Result<ContentItem, String>) -> Result<
    ContentItemView,
    Seq<char>,
> {
    match result {
        Ok(item) => Ok(item@),
        Err(message) => Err(message@),
    }
}

impl ContentItem {
    /// The part that carries an image, given what the encoder made of it.
    pub fn from_encoded_image(encoded: Result<Vec<u8>, String>) -> (result: Result<
        ContentItem,
        String,
    >)
        ensures
            item_result_view(result) == image_item(encoded_view(encoded)),
    {
        match encoded {
            Ok(bytes) => {
                if bytes.len() / 3 <= (usize::MAX - 4) / 4 {
                    Ok(ContentItem::Image { image_base64_webp: base64_encode(&bytes) })
                } else {
                    Err("the encoded image is too large".to_owned())
                }
            },
            Err(message) => Err(message),
        }
    }

    /// The part that carries `image`: the image as lossless WebP, in base64.
    /// Fails, with the message of the encoder, where the encoder refuses the
    /// size of the image.
    pub fn from_rgba_image(image: &RgbaImage) -> (result: Result<ContentItem, String>)
        ensures
            item_result_view(result) == image_item(
                webp_lossless(image@.raw, image@.width, image@.height),
            ),
    {
        let raw = image.as_raw();
        ContentItem::from_encoded_image(encode_webp_lossless(raw, image.width(), image.height()))
    }
}

} // verus!
