//! The data that crosses the bus or is kept in the shared state.
//!
//! Each type has a view: the same record over `Seq`, which is what the
//! contracts of the reducers and pipelines speak of.

use vstd::prelude::*;
use crate::text::{list_eq, str_eq};

verus! {

/// The conversational pipelines a user can select.
#[derive(Clone, Copy, Debug, PartialEq, Eq, Structural)]
pub enum AgentEnum {
    Chat,
    WebScrape,
    Images,
}

/// Who spoke a turn of a conversation.
#[derive(Clone, Copy, Debug, PartialEq, Eq, Structural)]
pub enum MessageRole {
    User,
    Assistant,
    System,
    Tool,
}

/// What the server reports about a model's build.
#[derive(Debug, PartialEq, Eq)]
pub struct OllamaModelDetail {
    pub parent_model: String,
    pub format: String,
    pub family: String,
    pub families: Vec<String>,
    pub parameter_size: String,
    pub quantization_level: String,
}

pub struct OllamaModelDetailView {
    pub parent_model: Seq<char>,
    pub format: Seq<char>,
    pub family: Seq<char>,
    pub families: Seq<Seq<char>>,
    pub parameter_size: Seq<char>,
    pub quantization_level: Seq<char>,
}

impl View for OllamaModelDetail {
    type V = OllamaModelDetailView;

    open spec fn view(&self) -> OllamaModelDetailView {
        OllamaModelDetailView {
            parent_model: self.parent_model@,
            format: self.format@,
            family: self.family@,
            families: self.families.deep_view(),
            parameter_size: self.parameter_size@,
            quantization_level: self.quantization_level@,
        }
    }
}

impl DeepView for OllamaModelDetail {
    type V = OllamaModelDetailView;

    open spec fn deep_view(&self) -> OllamaModelDetailView {
        self@
    }
}

impl Clone for OllamaModelDetail {
    fn clone(&self) -> (copy: Self)
        ensures
            copy@ == self@,
    {
        OllamaModelDetail {
            parent_model: self.parent_model.clone(),
            format: self.format.clone(),
            family: self.family.clone(),
            families: self.families.clone(),
            parameter_size: self.parameter_size.clone(),
            quantization_level: self.quantization_level.clone(),
        }
    }
}

/// One model that the inference server offers.
#[derive(Debug, PartialEq, Eq)]
pub struct OllamaModel {
    pub name: String,
    pub model: String,
    pub size: u64,
    pub details: OllamaModelDetail,
}

pub struct OllamaModelView {
    pub name: Seq<char>,
    pub model: Seq<char>,
    pub size: u64,
    pub details: OllamaModelDetailView,
}

impl View for OllamaModel {
    type V = OllamaModelView;

    open spec fn view(&self) -> OllamaModelView {
        OllamaModelView {
            name: self.name@,
            model: self.model@,
            size: self.size,
            details: self.details@,
        }
    }
}

impl DeepView for OllamaModel {
    type V = OllamaModelView;

    open spec fn deep_view(&self) -> OllamaModelView {
        self@
    }
}

impl Clone for OllamaModel {
    fn clone(&self) -> (copy: Self)
        ensures
            copy@ == self@,
    {
        OllamaModel {
            name: self.name.clone(),
            model: self.model.clone(),
            size: self.size,
            details: self.details.clone(),
        }
    }
}

/// The server's answer to a model-list request.
#[derive(Debug, PartialEq, Eq)]
pub struct OllamaTagsResult {
    pub models: Vec<OllamaModel>,
}

pub struct OllamaTagsResultView {
    pub models: Seq<OllamaModelView>,
}

impl View for OllamaTagsResult {
    type V = OllamaTagsResultView;

    open spec fn view(&self) -> OllamaTagsResultView {
        OllamaTagsResultView {
            models: self.models.deep_view(),
        }
    }
}

impl DeepView for OllamaTagsResult {
    type V = OllamaTagsResultView;

    open spec fn deep_view(&self) -> OllamaTagsResultView {
        self@
    }
}

impl Clone for OllamaTagsResult {
    fn clone(&self) -> (copy: Self)
        ensures
            copy@ == self@,
    {
        OllamaTagsResult {
            models: self.models.clone(),
        }
    }
}

/// An image file together with its content in base64, ready to be sent to a vision model.
#[derive(Debug, PartialEq, Eq)]
pub struct ImageBase64Search {
    pub base64: String,
    pub path: String,
}

pub struct ImageBase64SearchView {
    pub base64: Seq<char>,
    pub path: Seq<char>,
}

impl View for ImageBase64Search {
    type V = ImageBase64SearchView;

    open spec fn view(&self) -> ImageBase64SearchView {
        ImageBase64SearchView {
            base64: self.base64@,
            path: self.path@,
        }
    }
}

impl DeepView for ImageBase64Search {
    type V = ImageBase64SearchView;

    open spec fn deep_view(&self) -> ImageBase64SearchView {
        self@
    }
}

impl Clone for ImageBase64Search {
    fn clone(&self) -> (copy: Self)
        ensures
            copy@ == self@,
    {
        ImageBase64Search {
            base64: self.base64.clone(),
            path: self.path.clone(),
        }
    }
}

/// One image as the model names it in structured output.
#[derive(Debug, PartialEq, Eq)]
pub struct ImageStructured {
    pub path: String,
    pub name: String,
    pub extension: String,
}

pub struct ImageStructuredView {
    pub path: Seq<char>,
    pub name: Seq<char>,
    pub extension: Seq<char>,
}

impl View for ImageStructured {
    type V = ImageStructuredView;

    open spec fn view(&self) -> ImageStructuredView {
        ImageStructuredView {
            path: self.path@,
            name: self.name@,
            extension: self.extension@,
        }
    }
}

impl DeepView for ImageStructured {
    type V = ImageStructuredView;

    open spec fn deep_view(&self) -> ImageStructuredView {
        self@
    }
}

impl Clone for ImageStructured {
    fn clone(&self) -> (copy: Self)
        ensures
            copy@ == self@,
    {
        ImageStructured {
            path: self.path.clone(),
            name: self.name.clone(),
            extension: self.extension.clone(),
        }
    }
}

/// A list of images in structured output.
#[derive(Debug, PartialEq, Eq)]
pub struct ImagesStructured {
    pub images: Vec<ImageStructured>,
}

pub struct ImagesStructuredView {
    pub images: Seq<ImageStructuredView>,
}

impl View for ImagesStructured {
    type V = ImagesStructuredView;

    open spec fn view(&self) -> ImagesStructuredView {
        ImagesStructuredView {
            images: self.images.deep_view(),
        }
    }
}

impl DeepView for ImagesStructured {
    type V = ImagesStructuredView;

    open spec fn deep_view(&self) -> ImagesStructuredView {
        self@
    }
}

impl Clone for ImagesStructured {
    fn clone(&self) -> (copy: Self)
        ensures
            copy@ == self@,
    {
        ImagesStructured {
            images: self.images.clone(),
        }
    }
}

/// One discovered file with the labels found on it. An empty label list means that the file is not labeled yet.
#[derive(Debug, PartialEq, Eq)]
pub struct FileWithLabel {
    pub file: String,
    pub labels: Vec<String>,
}

pub struct FileWithLabelView {
    pub file: Seq<char>,
    pub labels: Seq<Seq<char>>,
}

impl View for FileWithLabel {
    type V = FileWithLabelView;

    open spec fn view(&self) -> FileWithLabelView {
        FileWithLabelView {
            file: self.file@,
            labels: self.labels.deep_view(),
        }
    }
}

impl DeepView for FileWithLabel {
    type V = FileWithLabelView;

    open spec fn deep_view(&self) -> FileWithLabelView {
        self@
    }
}

impl Clone for FileWithLabel {
    fn clone(&self) -> (copy: Self)
        ensures
            copy@ == self@,
    {
        FileWithLabel {
            file: self.file.clone(),
            labels: self.labels.clone(),
        }
    }
}

/// A tracked directory: the paths discovered under it and, per file, its labels.
#[derive(Debug, PartialEq, Eq)]
pub struct DirectoryFiles {
    pub dir: String,
    pub files: Vec<String>,
    pub files_with_labels: Vec<FileWithLabel>,
}

pub struct DirectoryFilesView {
    pub dir: Seq<char>,
    pub files: Seq<Seq<char>>,
    pub files_with_labels: Seq<FileWithLabelView>,
}

impl View for DirectoryFiles {
    type V = DirectoryFilesView;

    open spec fn view(&self) -> DirectoryFilesView {
        DirectoryFilesView {
            dir: self.dir@,
            files: self.files.deep_view(),
            files_with_labels: self.files_with_labels.deep_view(),
        }
    }
}

impl DeepView for DirectoryFiles {
    type V = DirectoryFilesView;

    open spec fn deep_view(&self) -> DirectoryFilesView {
        self@
    }
}

impl Clone for DirectoryFiles {
    fn clone(&self) -> (copy: Self)
        ensures
            copy@ == self@,
    {
        DirectoryFiles {
            dir: self.dir.clone(),
            files: self.files.clone(),
            files_with_labels: self.files_with_labels.clone(),
        }
    }
}

/// One image shown in the browser, with its labels. The texture that draws it stays with the renderer, keyed by `file`.
#[derive(Debug, PartialEq, Eq)]
pub struct DirectoryImage {
    pub file: String,
    pub labels: Vec<String>,
}

pub struct DirectoryImageView {
    pub file: Seq<char>,
    pub labels: Seq<Seq<char>>,
}

impl View for DirectoryImage {
    type V = DirectoryImageView;

    open spec fn view(&self) -> DirectoryImageView {
        DirectoryImageView {
            file: self.file@,
            labels: self.labels.deep_view(),
        }
    }
}

impl DeepView for DirectoryImage {
    type V = DirectoryImageView;

    open spec fn deep_view(&self) -> DirectoryImageView {
        self@
    }
}

impl Clone for DirectoryImage {
    fn clone(&self) -> (copy: Self)
        ensures
            copy@ == self@,
    {
        DirectoryImage {
            file: self.file.clone(),
            labels: self.labels.clone(),
        }
    }
}

/// The images of one directory as the browser shows them.
#[derive(Debug, PartialEq, Eq)]
pub struct DirectoryImages {
    pub dir: String,
    pub images: Vec<DirectoryImage>,
}

pub struct DirectoryImagesView {
    pub dir: Seq<char>,
    pub images: Seq<DirectoryImageView>,
}

impl View for DirectoryImages {
    type V = DirectoryImagesView;

    open spec fn view(&self) -> DirectoryImagesView {
        DirectoryImagesView {
            dir: self.dir@,
            images: self.images.deep_view(),
        }
    }
}

impl DeepView for DirectoryImages {
    type V = DirectoryImagesView;

    open spec fn deep_view(&self) -> DirectoryImagesView {
        self@
    }
}

impl Clone for DirectoryImages {
    fn clone(&self) -> (copy: Self)
        ensures
            copy@ == self@,
    {
        DirectoryImages {
            dir: self.dir.clone(),
            images: self.images.clone(),
        }
    }
}

/// One turn of a conversation.
#[derive(Debug, PartialEq, Eq)]
pub struct ChatMessage {
    pub role: MessageRole,
    pub content: String,
}

pub struct ChatMessageView {
    pub role: MessageRole,
    pub content: Seq<char>,
}

impl View for ChatMessage {
    type V = ChatMessageView;

    open spec fn view(&self) -> ChatMessageView {
        ChatMessageView {
            role: self.role,
            content: self.content@,
        }
    }
}

impl DeepView for ChatMessage {
    type V = ChatMessageView;

    open spec fn deep_view(&self) -> ChatMessageView {
        self@
    }
}

impl Clone for ChatMessage {
    fn clone(&self) -> (copy: Self)
        ensures
            copy@ == self@,
    {
        ChatMessage {
            role: self.role,
            content: self.content.clone(),
        }
    }
}

/// One entry of the chat panel: a text turn, a set of found images, or both.
#[derive(Debug, PartialEq, Eq)]
pub struct DeskMessage {
    pub chat_message: Option<ChatMessage>,
    pub images: Option<ImagesStructured>,
}

pub struct DeskMessageView {
    pub chat_message: Option<ChatMessageView>,
    pub images: Option<ImagesStructuredView>,
}

impl View for DeskMessage {
    type V = DeskMessageView;

    open spec fn view(&self) -> DeskMessageView {
        DeskMessageView {
            chat_message: self.chat_message.deep_view(),
            images: self.images.deep_view(),
        }
    }
}

impl DeepView for DeskMessage {
    type V = DeskMessageView;

    open spec fn deep_view(&self) -> DeskMessageView {
        self@
    }
}

impl Clone for DeskMessage {
    fn clone(&self) -> (copy: Self)
        ensures
            copy@ == self@,
    {
        DeskMessage {
            chat_message: match &self.chat_message {
                Some(inner) => Some(inner.clone()),
                None => None,
            },
            images: match &self.images {
                Some(inner) => Some(inner.clone()),
                None => None,
            },
        }
    }
}

/// Everything that can cross the bus. A component receives its own copy of each event.
#[derive(Debug, PartialEq, Eq)]
pub enum BroadcastMsg {
    /// The connectivity probe's verdict.
    OllamaRunning(Result<(), String>),
    /// Asks for a connectivity probe.
    GetOllamaRunning,
    /// The user saved a new server URL.
    SetOllamaURL(String),
    /// A model-list request came back.
    SetOllamaModels(Vec<OllamaModel>),
    /// Asks the shared state to publish the server URL.
    GetOllamaURL,
    /// The server URL, published.
    OllamaURL(String),
    /// Asks the shared state to publish the model list.
    GetOllamaModels,
    /// The model list, published.
    OllamaModels(Vec<OllamaModel>),
    /// The user picked a directory to track.
    PickedDirectory(String),
    /// The user removed a tracked directory.
    RemovedDirectory(String),
    /// The image files discovered under a directory.
    DirectoryFiles(String, Vec<String>),
    /// The thumbnails of a directory are ready.
    DirectoryImages(DirectoryImages),
    /// The user searches the labeled images.
    SearchByLabels(String),
    /// Starts a labeling sweep.
    StartLabeling,
    /// The user asked the labeling sweep to stop.
    StopLabeling,
    /// A vision model's comma-separated labels for a file.
    GetLabelsForImage(String, String),
    /// A labeling sweep has no file left.
    FinishLabeling,
    /// The user selected an agent.
    SelectAgent(AgentEnum),
    /// An agent bound itself to a model.
    SelectAgentModel(OllamaModel),
    /// The user sent a chat message.
    SendUserMessage(ChatMessage),
    /// The final reply to a user message.
    GetChatReponse(ChatMessage),
    /// An intermediate reply, shown without ending the wait.
    GetChatSubReponse(ChatMessage),
    /// Free text to be turned into a structured image list.
    GetStructuredOutput(String),
    /// A set of images that a pipeline found.
    GetFoundImages(ImagesStructured),
    /// The intent classifier's answer, with the message it classified.
    GetDescriptionImageSearch(String, ChatMessage),
    /// The user's request rewritten as a yes/no question.
    GetRephraseImageSearchPrompt(String),
    /// A vision model's answer to the question about one image.
    GetVisionSeachResult(String, String, ImageBase64Search),
}

pub enum BroadcastMsgView {
    OllamaRunning(Result<(), Seq<char>>),
    GetOllamaRunning,
    SetOllamaURL(Seq<char>),
    SetOllamaModels(Seq<OllamaModelView>),
    GetOllamaURL,
    OllamaURL(Seq<char>),
    GetOllamaModels,
    OllamaModels(Seq<OllamaModelView>),
    PickedDirectory(Seq<char>),
    RemovedDirectory(Seq<char>),
    DirectoryFiles(Seq<char>, Seq<Seq<char>>),
    DirectoryImages(DirectoryImagesView),
    SearchByLabels(Seq<char>),
    StartLabeling,
    StopLabeling,
    GetLabelsForImage(Seq<char>, Seq<char>),
    FinishLabeling,
    SelectAgent(AgentEnum),
    SelectAgentModel(OllamaModelView),
    SendUserMessage(ChatMessageView),
    GetChatReponse(ChatMessageView),
    GetChatSubReponse(ChatMessageView),
    GetStructuredOutput(Seq<char>),
    GetFoundImages(ImagesStructuredView),
    GetDescriptionImageSearch(Seq<char>, ChatMessageView),
    GetRephraseImageSearchPrompt(Seq<char>),
    GetVisionSeachResult(Seq<char>, Seq<char>, ImageBase64SearchView),
}

impl View for BroadcastMsg {
    type V = BroadcastMsgView;

    open spec fn view(&self) -> BroadcastMsgView {
        match self {
            BroadcastMsg::OllamaRunning(a) => BroadcastMsgView::OllamaRunning(
                match a {
                    Ok(_) => Ok(()),
                    Err(reason) => Err(reason@),
                },
            ),
            BroadcastMsg::GetOllamaRunning => BroadcastMsgView::GetOllamaRunning,
            BroadcastMsg::SetOllamaURL(a) => BroadcastMsgView::SetOllamaURL(
                a@,
            ),
            BroadcastMsg::SetOllamaModels(a) => BroadcastMsgView::SetOllamaModels(
                a.deep_view(),
            ),
            BroadcastMsg::GetOllamaURL => BroadcastMsgView::GetOllamaURL,
            BroadcastMsg::OllamaURL(a) => BroadcastMsgView::OllamaURL(
                a@,
            ),
            BroadcastMsg::GetOllamaModels => BroadcastMsgView::GetOllamaModels,
            BroadcastMsg::OllamaModels(a) => BroadcastMsgView::OllamaModels(
                a.deep_view(),
            ),
            BroadcastMsg::PickedDirectory(a) => BroadcastMsgView::PickedDirectory(
                a@,
            ),
            BroadcastMsg::RemovedDirectory(a) => BroadcastMsgView::RemovedDirectory(
                a@,
            ),
            BroadcastMsg::DirectoryFiles(a, b) => BroadcastMsgView::DirectoryFiles(
                a@,
                b.deep_view(),
            ),
            BroadcastMsg::DirectoryImages(a) => BroadcastMsgView::DirectoryImages(
                a@,
            ),
            BroadcastMsg::SearchByLabels(a) => BroadcastMsgView::SearchByLabels(
                a@,
            ),
            BroadcastMsg::StartLabeling => BroadcastMsgView::StartLabeling,
            BroadcastMsg::StopLabeling => BroadcastMsgView::StopLabeling,
            BroadcastMsg::GetLabelsForImage(a, b) => BroadcastMsgView::GetLabelsForImage(
                a@,
                b@,
            ),
            BroadcastMsg::FinishLabeling => BroadcastMsgView::FinishLabeling,
            BroadcastMsg::SelectAgent(a) => BroadcastMsgView::SelectAgent(
                *a,
            ),
            BroadcastMsg::SelectAgentModel(a) => BroadcastMsgView::SelectAgentModel(
                a@,
            ),
            BroadcastMsg::SendUserMessage(a) => BroadcastMsgView::SendUserMessage(
                a@,
            ),
            BroadcastMsg::GetChatReponse(a) => BroadcastMsgView::GetChatReponse(
                a@,
            ),
            BroadcastMsg::GetChatSubReponse(a) => BroadcastMsgView::GetChatSubReponse(
                a@,
            ),
            BroadcastMsg::GetStructuredOutput(a) => BroadcastMsgView::GetStructuredOutput(
                a@,
            ),
            BroadcastMsg::GetFoundImages(a) => BroadcastMsgView::GetFoundImages(
                a@,
            ),
            BroadcastMsg::GetDescriptionImageSearch(a, b) => BroadcastMsgView::GetDescriptionImageSearch(
                a@,
                b@,
            ),
            BroadcastMsg::GetRephraseImageSearchPrompt(a) => BroadcastMsgView::GetRephraseImageSearchPrompt(
                a@,
            ),
            BroadcastMsg::GetVisionSeachResult(a, b, c) => BroadcastMsgView::GetVisionSeachResult(
                a@,
                b@,
                c@,
            ),
        }
    }
}

impl DeepView for BroadcastMsg {
    type V = BroadcastMsgView;

    open spec fn deep_view(&self) -> BroadcastMsgView {
        self@
    }
}

impl Clone for BroadcastMsg {
    fn clone(&self) -> (copy: Self)
        ensures
            copy@ == self@,
    {
        match self {
            BroadcastMsg::OllamaRunning(a) => BroadcastMsg::OllamaRunning(
                match a {
                    Ok(_) => Ok(()),
                    Err(reason) => Err(reason.clone()),
                },
            ),
            BroadcastMsg::GetOllamaRunning => BroadcastMsg::GetOllamaRunning,
            BroadcastMsg::SetOllamaURL(a) => BroadcastMsg::SetOllamaURL(
                a.clone(),
            ),
            BroadcastMsg::SetOllamaModels(a) => BroadcastMsg::SetOllamaModels(
                a.clone(),
            ),
            BroadcastMsg::GetOllamaURL => BroadcastMsg::GetOllamaURL,
            BroadcastMsg::OllamaURL(a) => BroadcastMsg::OllamaURL(
                a.clone(),
            ),
            BroadcastMsg::GetOllamaModels => BroadcastMsg::GetOllamaModels,
            BroadcastMsg::OllamaModels(a) => BroadcastMsg::OllamaModels(
                a.clone(),
            ),
            BroadcastMsg::PickedDirectory(a) => BroadcastMsg::PickedDirectory(
                a.clone(),
            ),
            BroadcastMsg::RemovedDirectory(a) => BroadcastMsg::RemovedDirectory(
                a.clone(),
            ),
            BroadcastMsg::DirectoryFiles(a, b) => BroadcastMsg::DirectoryFiles(
                a.clone(),
                b.clone(),
            ),
            BroadcastMsg::DirectoryImages(a) => BroadcastMsg::DirectoryImages(
                a.clone(),
            ),
            BroadcastMsg::SearchByLabels(a) => BroadcastMsg::SearchByLabels(
                a.clone(),
            ),
            BroadcastMsg::StartLabeling => BroadcastMsg::StartLabeling,
            BroadcastMsg::StopLabeling => BroadcastMsg::StopLabeling,
            BroadcastMsg::GetLabelsForImage(a, b) => BroadcastMsg::GetLabelsForImage(
                a.clone(),
                b.clone(),
            ),
            BroadcastMsg::FinishLabeling => BroadcastMsg::FinishLabeling,
            BroadcastMsg::SelectAgent(a) => BroadcastMsg::SelectAgent(
                *a,
            ),
            BroadcastMsg::SelectAgentModel(a) => BroadcastMsg::SelectAgentModel(
                a.clone(),
            ),
            BroadcastMsg::SendUserMessage(a) => BroadcastMsg::SendUserMessage(
                a.clone(),
            ),
            BroadcastMsg::GetChatReponse(a) => BroadcastMsg::GetChatReponse(
                a.clone(),
            ),
            BroadcastMsg::GetChatSubReponse(a) => BroadcastMsg::GetChatSubReponse(
                a.clone(),
            ),
            BroadcastMsg::GetStructuredOutput(a) => BroadcastMsg::GetStructuredOutput(
                a.clone(),
            ),
            BroadcastMsg::GetFoundImages(a) => BroadcastMsg::GetFoundImages(
                a.clone(),
            ),
            BroadcastMsg::GetDescriptionImageSearch(a, b) => BroadcastMsg::GetDescriptionImageSearch(
                a.clone(),
                b.clone(),
            ),
            BroadcastMsg::GetRephraseImageSearchPrompt(a) => BroadcastMsg::GetRephraseImageSearchPrompt(
                a.clone(),
            ),
            BroadcastMsg::GetVisionSeachResult(a, b, c) => BroadcastMsg::GetVisionSeachResult(
                a.clone(),
                b.clone(),
                c.clone(),
            ),
        }
    }
}

impl ChatMessage {
    /// A turn spoken by `role`.
    pub fn new(role: MessageRole, content: String) -> (message: Self)
        ensures
            message@ == (ChatMessageView { role, content: content@ }),
    {
        ChatMessage { role, content }
    }

    /// A turn spoken by the user.
    pub fn user(content: String) -> (message: Self)
        ensures
            message@ == (ChatMessageView { role: MessageRole::User, content: content@ }),
    {
        ChatMessage { role: MessageRole::User, content }
    }
}

impl Default for FileWithLabel {
    fn default() -> (entry: Self)
        ensures
            entry@ == (FileWithLabelView { file: Seq::empty(), labels: Seq::empty() }),
    {
        let labels: Vec<String> = Vec::new();
        assert(labels.deep_view() == Seq::<Seq<char>>::empty());
        FileWithLabel { file: String::new(), labels }
    }
}

impl Default for DirectoryFiles {
    fn default() -> (record: Self)
        ensures
            record@ == (DirectoryFilesView {
                dir: Seq::empty(),
                files: Seq::empty(),
                files_with_labels: Seq::empty(),
            }),
    {
        let files: Vec<String> = Vec::new();
        let files_with_labels: Vec<FileWithLabel> = Vec::new();
        assert(files.deep_view() == Seq::<Seq<char>>::empty());
        assert(files_with_labels.deep_view() == Seq::<FileWithLabelView>::empty());
        DirectoryFiles { dir: String::new(), files, files_with_labels }
    }
}

impl OllamaModelDetail {
    /// Whether the two records say the same.
    pub fn same(&self, other: &Self) -> (same: bool)
        ensures
            same == (self@ == other@),
    {
        str_eq(self.parent_model.as_str(), other.parent_model.as_str()) && str_eq(
            self.format.as_str(),
            other.format.as_str(),
        ) && str_eq(self.family.as_str(), other.family.as_str()) && list_eq(
            &self.families,
            &other.families,
        ) && str_eq(self.parameter_size.as_str(), other.parameter_size.as_str()) && str_eq(
            self.quantization_level.as_str(),
            other.quantization_level.as_str(),
        )
    }
}

impl OllamaModel {
    /// Whether the two descriptors say the same.
    pub fn same(&self, other: &Self) -> (same: bool)
        ensures
            same == (self@ == other@),
    {
        str_eq(self.name.as_str(), other.name.as_str()) && str_eq(
            self.model.as_str(),
            other.model.as_str(),
        ) && self.size == other.size && self.details.same(&other.details)
    }
}

/// Whether `model` is one of `models`.
pub fn has_model(models: &Vec<OllamaModel>, model: &OllamaModel) -> (found: bool)
    ensures
        found == models.deep_view().contains(model@),
{
    let mut i: usize = 0;
    while i < models.len()
        invariant
            i <= models.len(),
            forall|k: int| 0 <= k < i ==> models.deep_view()[k] != model@,
        decreases models.len() - i,
    {
        if models[i].same(model) {
            assert(models.deep_view()[i as int] == model@);
            return true;
        }
        i += 1;
    }
    false
}

} // verus!
