use desk_imager::app_state::AppState;
use desk_imager::components::bottom_panel::ChatBottomPanel;
use desk_imager::components::chat_input::ChatInput;
use desk_imager::components::file_loader::{
    stores_thumbnail, thumbnail_path, thumbnail_source, thumbnails_dir, FileLoader,
};
use desk_imager::components::main_panel::{text_holds_term, MainPanel};
use desk_imager::components::messages::Messages;
use desk_imager::components::ollama_settings::{OllamaSettings, OllamaURL};
use desk_imager::components::top_menu::TopMenu;
use desk_imager::components::top_panel::{LabelingStatus, TopPanel};
use desk_imager::components::Component;
use desk_imager::config::is_supported_image_format;
use desk_imager::effects::{extend, nothing, only, publish, Effect};
use desk_imager::enums::{
    AgentEnum, BroadcastMsg, ChatMessage, DeskMessage, DirectoryFiles, DirectoryImage,
    DirectoryImages, FileWithLabel, ImageBase64Search, ImageStructured, ImagesStructured,
    MessageRole, OllamaModel, OllamaModelDetail,
};
use desk_imager::tools::{get_images_from_path, path_contains_substring, search_images_from_path};
use desk_imager::utils::{
    encoded_image, img_path_to_base64, img_paths_to_base64, search_images_at_path, ImageFile,
    PathEntry,
};

fn strings(items: &[&str]) -> Vec<String> {
    items.iter().map(|s| s.to_string()).collect()
}

fn model(name: &str, families: &[&str]) -> OllamaModel {
    OllamaModel {
        name: name.to_string(),
        model: name.to_string(),
        size: 1,
        details: OllamaModelDetail {
            parent_model: String::new(),
            format: String::new(),
            family: String::new(),
            families: strings(families),
            parameter_size: String::new(),
            quantization_level: String::new(),
        },
    }
}

fn entry(file: &str, labels: &[&str]) -> FileWithLabel {
    FileWithLabel { file: file.to_string(), labels: strings(labels) }
}

fn record(dir: &str, entries: Vec<FileWithLabel>) -> DirectoryFiles {
    DirectoryFiles {
        dir: dir.to_string(),
        files: entries.iter().map(|e| e.file.clone()).collect(),
        files_with_labels: entries,
    }
}

fn shown(file: &str, labels: &[&str]) -> DirectoryImage {
    DirectoryImage { file: file.to_string(), labels: strings(labels) }
}

fn thumbnails(dir: &str, images: Vec<DirectoryImage>) -> DirectoryImages {
    DirectoryImages { dir: dir.to_string(), images }
}

fn path_entry(path: &str, extension: Option<&str>, is_file: bool, is_dir: bool) -> PathEntry {
    PathEntry {
        path: path.to_string(),
        unicode: true,
        extension: extension.map(|e| e.to_string()),
        is_file,
        is_dir,
    }
}

#[test]
fn effect_lists() {
    assert_eq!(nothing(), vec![]);
    assert_eq!(only(Effect::SearchDirectory("d".to_string())), vec![Effect::SearchDirectory("d".to_string())]);
    assert_eq!(publish(false, BroadcastMsg::StartLabeling), vec![]);
    assert_eq!(publish(true, BroadcastMsg::StartLabeling), vec![Effect::Emit(BroadcastMsg::StartLabeling)]);
    let mut effects = vec![Effect::GetTags("a".to_string())];
    extend(&mut effects, vec![Effect::GetTags("b".to_string()), Effect::GetTags("c".to_string())]);
    assert_eq!(
        effects,
        vec![Effect::GetTags("a".to_string()), Effect::GetTags("b".to_string()), Effect::GetTags("c".to_string())]
    );
}

#[test]
fn events_copy_themselves() {
    let events = vec![
        BroadcastMsg::OllamaRunning(Ok(())),
        BroadcastMsg::OllamaRunning(Err("down".to_string())),
        BroadcastMsg::SetOllamaModels(vec![model("a", &["clip"])]),
        BroadcastMsg::DirectoryFiles("/d".to_string(), strings(&["a", "b"])),
        BroadcastMsg::DirectoryImages(thumbnails("/d", vec![shown("a", &["x"])])),
        BroadcastMsg::SelectAgent(AgentEnum::WebScrape),
        BroadcastMsg::GetDescriptionImageSearch("true".to_string(), ChatMessage::user("q".to_string())),
        BroadcastMsg::GetVisionSeachResult(
            "p".to_string(),
            "a".to_string(),
            ImageBase64Search { base64: "b".to_string(), path: "f".to_string() },
        ),
        BroadcastMsg::FinishLabeling,
    ];
    for event in &events {
        assert_eq!(&event.clone(), event);
    }
    assert_eq!(ChatMessage::user("q".to_string()), ChatMessage::new(MessageRole::User, "q".to_string()));
    assert_eq!(FileWithLabel::default(), entry("", &[]));
    assert_eq!(DirectoryFiles::default(), record("", vec![]));
    assert!(model("a", &["x"]).same(&model("a", &["x"])));
    assert!(!model("a", &["x"]).same(&model("a", &["y"])));
    assert!(!model("a", &["x"]).same(&model("b", &["x"])));
}

#[test]
fn the_menu_keeps_one_mark_per_format() {
    let mut menu = TopMenu::new();
    assert_eq!(menu.formats_checks(), &vec![false, false, false]);
    menu.check_format(1, true);
    assert_eq!(menu.formats_checks(), &vec![false, true, false]);
    menu.check_format(3, true);
    assert_eq!(menu.formats_checks(), &vec![false, true, false]);
    let state = AppState::new(None);
    assert_eq!(menu.update(BroadcastMsg::StartLabeling, &state), vec![]);
    assert_eq!(menu.formats_checks(), &vec![false, true, false]);
}

#[test]
fn supported_formats() {
    for ok in ["png", "jpg", "jpeg"] {
        assert!(is_supported_image_format(ok));
    }
    for other in ["PNG", "gif", "", "jpe", "pngx", ".png"] {
        assert!(!is_supported_image_format(other));
    }
}

#[test]
fn the_settings_cache_follows_the_published_values() {
    let state = AppState::new(None);
    let mut settings = OllamaSettings::new();
    assert_eq!(settings.url(), "");
    assert!(settings.models().is_empty());
    settings.update(BroadcastMsg::OllamaURL("http://h:1".to_string()), &state);
    settings.update(BroadcastMsg::OllamaModels(vec![model("a", &[])]), &state);
    settings.update(BroadcastMsg::SetOllamaURL("ignored".to_string()), &state);
    assert_eq!(settings.url(), "http://h:1");
    assert_eq!(settings.models(), &vec![model("a", &[])]);
}

#[test]
fn the_settings_popup_asks_and_saves_only_when_connected() {
    let state = AppState::new(None);
    let mut settings = OllamaSettings::new();
    settings.set_url("http://localhost:11434".to_string());
    assert_eq!(settings.open(), vec![]);
    assert_eq!(settings.save(), vec![]);
    assert_eq!(settings.submit(true), vec![]);
    assert_eq!(settings.period_ollama_status(), vec![]);
    assert_eq!(settings.init(&state), vec![]);
    settings.register_tx();
    assert_eq!(
        settings.open(),
        vec![Effect::Emit(BroadcastMsg::GetOllamaURL), Effect::Emit(BroadcastMsg::GetOllamaModels)]
    );
    assert_eq!(settings.period_ollama_status(), vec![Effect::Emit(BroadcastMsg::GetOllamaRunning)]);
    assert_eq!(settings.init(&state), vec![Effect::Repeat(BroadcastMsg::GetOllamaRunning)]);
    assert_eq!(
        settings.submit(true),
        vec![Effect::Emit(BroadcastMsg::SetOllamaURL("http://localhost:11434".to_string()))]
    );
    assert_eq!(settings.submit(false), vec![]);
}

#[test]
fn only_a_url_is_saved() {
    let mut settings = OllamaSettings::new();
    settings.register_tx();
    for good in ["http://localhost:11434", "http://127.0.0.1:11434/", "https://example.org/a?b=c"] {
        settings.set_url(good.to_string());
        assert_eq!(settings.save(), vec![Effect::Emit(BroadcastMsg::SetOllamaURL(good.to_string()))]);
        assert!(OllamaURL { url: good.to_string() }.validate());
    }
    for bad in ["", "not a url", "localhost", "//host", "http://", "http://host:99999999"] {
        settings.set_url(bad.to_string());
        assert_eq!(settings.save(), vec![], "for {:?}", bad);
        assert!(!OllamaURL { url: bad.to_string() }.validate());
    }
}

fn counted_state() -> AppState {
    let mut state = AppState::new(None);
    state.dir_files = vec![
        record("/a", vec![entry("1", &[]), entry("2", &["x"]), entry("3", &[])]),
        record("/b", vec![]),
        record("/c", vec![entry("4", &["y", "z"])]),
    ];
    state.directories = strings(&["/a", "/b", "/c"]);
    state
}

#[test]
fn the_top_bar_counts_labeled_files_anew() {
    let mut state = counted_state();
    let mut panel = TopPanel::new();
    assert_eq!(panel.labeling_status(), LabelingStatus::AllDone);
    // Not connected to the shared state yet: nothing to count.
    panel.init(&state);
    assert_eq!(panel.labeling_status(), LabelingStatus::AllDone);
    panel.register_app_state(&state);
    assert_eq!(panel.picked_directories(), &strings(&["/a", "/b", "/c"]));
    panel.init(&state);
    assert_eq!(panel.labeling_status(), LabelingStatus::Waiting(2, 4));
    panel.update(BroadcastMsg::StartLabeling, &state);
    assert_eq!(panel.labeling_status(), LabelingStatus::Running(2, 4));
    state.update(BroadcastMsg::GetLabelsForImage("3".to_string(), "q".to_string()));
    // The count is taken anew only on the events that change it.
    panel.update(BroadcastMsg::FinishLabeling, &state);
    assert_eq!(panel.labeling_status(), LabelingStatus::Running(2, 4));
    panel.update(BroadcastMsg::GetLabelsForImage("3".to_string(), "q".to_string()), &state);
    assert_eq!(panel.labeling_status(), LabelingStatus::Running(3, 4));
    panel.update(BroadcastMsg::StopLabeling, &state);
    assert_eq!(panel.labeling_status(), LabelingStatus::Waiting(3, 4));
    state.update(BroadcastMsg::GetLabelsForImage("1".to_string(), "q".to_string()));
    panel.update(BroadcastMsg::DirectoryImages(thumbnails("/a", vec![])), &state);
    assert_eq!(panel.labeling_status(), LabelingStatus::AllDone);
    state.dir_files.push(record("/d", vec![entry("5", &[])]));
    state.remove_directory("/a".to_string());
    panel.update(BroadcastMsg::RemovedDirectory("/a".to_string()), &state);
    assert_eq!(panel.labeling_status(), LabelingStatus::Waiting(1, 2));
}

#[test]
fn the_top_bar_shows_the_server_status() {
    let state = AppState::new(None);
    let mut panel = TopPanel::new();
    assert!(!panel.ollama_connected());
    panel.update(BroadcastMsg::OllamaRunning(Ok(())), &state);
    assert!(panel.ollama_connected());
    panel.update(BroadcastMsg::OllamaRunning(Err("Ollama is not running".to_string())), &state);
    assert!(!panel.ollama_connected());
    panel.update(BroadcastMsg::OllamaURL("http://h:1".to_string()), &state);
    assert_eq!(panel.ollama_button().url(), "http://h:1");
    panel.set_ollama_url("http://h:2".to_string());
    assert_eq!(panel.ollama_button().url(), "http://h:2");
}

#[test]
fn picking_a_directory() {
    let mut state = AppState::new(None);
    let mut panel = TopPanel::new();
    panel.register_tx();
    panel.register_app_state(&state);
    assert_eq!(
        panel.pick_dir("/a".to_string(), &mut state),
        vec![Effect::Emit(BroadcastMsg::PickedDirectory("/a".to_string()))]
    );
    assert_eq!(
        panel.pick_dir("/b".to_string(), &mut state),
        vec![Effect::Emit(BroadcastMsg::PickedDirectory("/b".to_string()))]
    );
    assert_eq!(panel.pick_dir("/a".to_string(), &mut state), vec![]);
    assert_eq!(panel.picked_directories(), &strings(&["/a", "/b"]));
    assert_eq!(state.directories, strings(&["/a", "/b"]));
}

#[test]
fn removing_a_directory() {
    let mut state = counted_state();
    let mut panel = TopPanel::new();
    panel.register_tx();
    panel.register_app_state(&state);
    assert_eq!(panel.remove_directory("/zzz".to_string(), &mut state), vec![]);
    assert_eq!(state.dir_files.len(), 3);
    assert_eq!(
        panel.remove_directory("/a".to_string(), &mut state),
        vec![Effect::Emit(BroadcastMsg::RemovedDirectory("/a".to_string()))]
    );
    assert_eq!(panel.picked_directories(), &strings(&["/b", "/c"]));
    assert_eq!(state.directories, strings(&["/b", "/c"]));
    assert_eq!(state.dir_files.iter().map(|r| r.dir.as_str()).collect::<Vec<_>>(), vec!["/b", "/c"]);
}

#[test]
fn an_unconnected_top_bar_keeps_to_itself() {
    let mut state = AppState::new(None);
    let mut panel = TopPanel::new();
    assert_eq!(panel.pick_dir("/a".to_string(), &mut state), vec![]);
    assert_eq!(panel.picked_directories(), &strings(&["/a"]));
    assert!(state.directories.is_empty());
    assert_eq!(panel.search(), vec![]);
    assert_eq!(panel.start_labeling(), vec![]);
    assert_eq!(panel.stop_labeling(), vec![]);
    panel.register_tx();
    panel.set_input_text("cat, dog".to_string());
    assert_eq!(panel.input_text(), "cat, dog");
    assert_eq!(panel.search(), vec![Effect::Emit(BroadcastMsg::SearchByLabels("cat, dog".to_string()))]);
    assert_eq!(panel.start_labeling(), vec![Effect::Emit(BroadcastMsg::StartLabeling)]);
    assert_eq!(panel.stop_labeling(), vec![Effect::Emit(BroadcastMsg::StopLabeling)]);
}

fn browser() -> (MainPanel, AppState) {
    let state = AppState::new(None);
    let mut panel = MainPanel::new();
    panel.update(
        BroadcastMsg::DirectoryImages(thumbnails(
            "/a",
            vec![shown("/a/1.png", &["Black Cat", "sofa"]), shown("/a/2.png", &[]), shown("/a/3.png", &["dog"])],
        )),
        &state,
    );
    panel.update(
        BroadcastMsg::DirectoryImages(thumbnails("/b", vec![shown("/b/4.png", &["CATHEDRAL"]), shown("/a/1.png", &[])])),
        &state,
    );
    (panel, state)
}

#[test]
fn thumbnails_are_shown_once_per_directory() {
    let (mut panel, state) = browser();
    let before = panel.dir_images().clone();
    panel.update(BroadcastMsg::DirectoryImages(thumbnails("/a", vec![shown("/a/9.png", &[])])), &state);
    assert_eq!(panel.dir_images(), &before);
    assert_eq!(panel.search_input("/a"), Some(&String::new()));
    assert_eq!(panel.search_input("/b"), Some(&String::new()));
    assert_eq!(panel.search_input("/c"), None);
    panel.set_search_input("/a".to_string(), "cat".to_string());
    assert_eq!(panel.search_input("/a"), Some(&"cat".to_string()));
    assert_eq!(panel.search_input("/b"), Some(&String::new()));
    panel.update(BroadcastMsg::RemovedDirectory("/a".to_string()), &state);
    assert_eq!(panel.dir_images().iter().map(|d| d.dir.as_str()).collect::<Vec<_>>(), vec!["/b"]);
    // A directory that comes back starts with an empty search field.
    panel.update(BroadcastMsg::DirectoryImages(thumbnails("/a", vec![])), &state);
    assert_eq!(panel.search_input("/a"), Some(&String::new()));
    assert_eq!(panel.dir_images().len(), 2);
}

#[test]
fn a_label_search_matches_parts_of_labels_in_any_case() {
    let (mut panel, state) = browser();
    panel.update(BroadcastMsg::SearchByLabels("cat".to_string()), &state);
    assert_eq!(panel.found_images(), &vec![shown("/a/1.png", &["Black Cat", "sofa"]), shown("/b/4.png", &["CATHEDRAL"])]);
    panel.update(BroadcastMsg::SearchByLabels(" DOG , Sofa".to_string()), &state);
    assert_eq!(panel.found_images(), &vec![shown("/a/1.png", &["Black Cat", "sofa"]), shown("/a/3.png", &["dog"])]);
    panel.update(BroadcastMsg::SearchByLabels("bird".to_string()), &state);
    assert_eq!(panel.found_images(), &vec![]);
    panel.update(BroadcastMsg::SearchByLabels("cat".to_string()), &state);
    panel.update(BroadcastMsg::SearchByLabels(" , ".to_string()), &state);
    assert_eq!(panel.found_images(), &vec![]);
    panel.search_by_terms(&strings(&["Cat"]));
    assert_eq!(panel.found_images(), &vec![]);
    panel.search_by_terms(&strings(&[""]));
    assert_eq!(panel.found_images().len(), 3);
}

#[test]
fn terms_are_sought_as_parts() {
    assert!(text_holds_term("black cat", &strings(&["dog", "cat"])));
    assert!(!text_holds_term("black cat", &strings(&["dog", "cats"])));
    assert!(!text_holds_term("black cat", &strings(&[])));
    assert!(text_holds_term("", &strings(&[""])));
}

#[test]
fn labels_reach_the_browser() {
    let (mut panel, state) = browser();
    panel.update(BroadcastMsg::GetLabelsForImage("/a/1.png".to_string(), "tiger, grass".to_string()), &state);
    assert_eq!(panel.dir_images()[0].images[0], shown("/a/1.png", &["tiger", "grass"]));
    assert_eq!(panel.dir_images()[1].images[1], shown("/a/1.png", &["tiger", "grass"]));
    assert_eq!(panel.dir_images()[0].images[2], shown("/a/3.png", &["dog"]));
    panel.update(BroadcastMsg::SearchByLabels("tiger".to_string()), &state);
    assert_eq!(panel.found_images().len(), 2);
}

#[test]
fn the_chat_panel_shows_turns_and_waits_for_replies() {
    let state = AppState::new(None);
    let mut panel = Messages::new();
    let user = ChatMessage::user("hi".to_string());
    let sub = ChatMessage::new(MessageRole::Assistant, "looking".to_string());
    let reply = ChatMessage::new(MessageRole::Assistant, "hello".to_string());
    let found = ImagesStructured {
        images: vec![ImageStructured { path: "p".to_string(), name: "n".to_string(), extension: "e".to_string() }],
    };
    assert!(!panel.recieving_message());
    panel.update(BroadcastMsg::SendUserMessage(user.clone()), &state);
    assert!(panel.recieving_message());
    panel.update(BroadcastMsg::GetChatSubReponse(sub.clone()), &state);
    assert!(panel.recieving_message());
    panel.update(BroadcastMsg::GetChatReponse(reply.clone()), &state);
    assert!(!panel.recieving_message());
    panel.update(BroadcastMsg::SendUserMessage(user.clone()), &state);
    panel.update(BroadcastMsg::GetFoundImages(found.clone()), &state);
    assert!(!panel.recieving_message());
    let text = |m: &ChatMessage| DeskMessage { chat_message: Some(m.clone()), images: None };
    assert_eq!(
        panel.messages(),
        &vec![
            text(&user),
            text(&sub),
            text(&reply),
            text(&user),
            DeskMessage { chat_message: None, images: Some(found) },
        ]
    );
}

#[test]
fn the_chat_panel_empties_on_a_change_of_agent_or_model() {
    let state = AppState::new(None);
    let mut panel = Messages::new();
    let user = ChatMessage::user("hi".to_string());
    panel.update(BroadcastMsg::SendUserMessage(user.clone()), &state);
    panel.update(BroadcastMsg::SelectAgent(AgentEnum::Chat), &state);
    assert!(panel.messages().is_empty());
    panel.update(BroadcastMsg::SendUserMessage(user.clone()), &state);
    panel.update(BroadcastMsg::SelectAgent(AgentEnum::Chat), &state);
    assert_eq!(panel.messages().len(), 1);
    panel.update(BroadcastMsg::SelectAgent(AgentEnum::Images), &state);
    assert!(panel.messages().is_empty());
    panel.update(BroadcastMsg::SendUserMessage(user), &state);
    assert!(panel.recieving_message());
    panel.update(BroadcastMsg::SelectAgentModel(model("a", &[])), &state);
    assert!(panel.messages().is_empty());
    // The wait is not ended by emptying the panel.
    assert!(panel.recieving_message());
}

#[test]
fn the_chat_input_sends_and_empties() {
    let mut input = ChatInput::new();
    input.input_text = "hello".to_string();
    assert_eq!(input.submit(), vec![]);
    assert_eq!(input.input_text, "");
    input.register_tx();
    input.input_text = "hello".to_string();
    assert_eq!(
        input.submit(),
        vec![Effect::Emit(BroadcastMsg::SendUserMessage(ChatMessage::user("hello".to_string())))]
    );
    assert_eq!(input.input_text, "");
    let mut panel = ChatBottomPanel::new();
    panel.register_tx();
    panel.set_input_text("hi".to_string());
    assert_eq!(panel.input_text(), "hi");
    assert_eq!(
        panel.submit(),
        vec![Effect::Emit(BroadcastMsg::SendUserMessage(ChatMessage::user("hi".to_string())))]
    );
    assert_eq!(panel.input_text(), "");
    assert_eq!(panel.update(BroadcastMsg::StartLabeling, &AppState::new(None)), vec![]);
}

#[test]
fn a_picked_directory_is_searched() {
    let state = AppState::new(None);
    let mut loader = FileLoader::new();
    assert_eq!(
        loader.update(BroadcastMsg::PickedDirectory("/a".to_string()), &state),
        vec![Effect::SearchDirectory("/a".to_string())]
    );
    assert_eq!(loader.update(BroadcastMsg::RemovedDirectory("/a".to_string()), &state), vec![]);
}

#[test]
fn found_files_are_announced_and_thumbnailed() {
    let mut loader = FileLoader::new();
    let files = strings(&["/a/1.png", "/a/2.jpg"]);
    let request = Effect::CreateThumbnails(record("/a", vec![entry("/a/1.png", &[]), entry("/a/2.jpg", &[])]));
    assert_eq!(loader.search_images_on_path("/a".to_string(), files.clone()), vec![request.clone()]);
    loader.register_tx();
    assert_eq!(
        loader.search_images_on_path("/a".to_string(), files.clone()),
        vec![Effect::Emit(BroadcastMsg::DirectoryFiles("/a".to_string(), files)), request]
    );
}

#[test]
fn only_decoded_thumbnails_are_shown() {
    let mut loader = FileLoader::new();
    let files = record("/a", vec![entry("1", &["x"]), entry("2", &[]), entry("3", &["y"]), entry("4", &[])]);
    assert_eq!(loader.create_thumbnails(&files, &vec![true, true, true, true]), vec![]);
    loader.register_tx();
    assert_eq!(
        loader.create_thumbnails(&files, &vec![true, false, true]),
        vec![Effect::Emit(BroadcastMsg::DirectoryImages(thumbnails("/a", vec![shown("1", &["x"]), shown("3", &["y"])])))]
    );
    assert_eq!(
        loader.create_thumbnails(&files, &vec![]),
        vec![Effect::Emit(BroadcastMsg::DirectoryImages(thumbnails("/a", vec![])))]
    );
    assert_eq!(
        loader.create_thumbnails(&files, &vec![false, true, false, true, true, true]),
        vec![Effect::Emit(BroadcastMsg::DirectoryImages(thumbnails("/a", vec![shown("2", &[]), shown("4", &[])])))]
    );
}

#[test]
fn stored_directories_get_their_thumbnails_at_the_start() {
    let state = counted_state();
    let mut loader = FileLoader::new();
    assert_eq!(loader.init(&state), vec![]);
    loader.register_app_state(&state);
    assert_eq!(
        loader.init(&state),
        state.dir_files.iter().map(|r| Effect::CreateThumbnails(r.clone())).collect::<Vec<_>>()
    );
}

#[test]
fn the_thumbnail_cache() {
    assert_eq!(thumbnails_dir("/home/u"), "/home/u/deskvision");
    assert_eq!(thumbnail_path("/home/u/deskvision", Some("cat.png")), "/home/u/deskvision/cat.png");
    assert_eq!(thumbnail_path("/home/u/deskvision", None), "/home/u/deskvision/unknown");
    assert_eq!(thumbnail_source("/p/cat.png", "/t/cat.png", true, true), "/t/cat.png");
    assert_eq!(thumbnail_source("/p/cat.png", "/t/cat.png", true, false), "/p/cat.png");
    assert_eq!(thumbnail_source("/p/cat.png", "/t/cat.png", false, true), "/p/cat.png");
    assert!(stores_thumbnail(true, "/p/cat.png", "/p/cat.png"));
    assert!(!stores_thumbnail(true, "/p/cat.png", "/t/cat.png"));
    assert!(!stores_thumbnail(false, "/p/cat.png", "/p/cat.png"));
}

#[test]
fn images_are_encoded_in_standard_base64() {
    let encode = |bytes: &[u8]| img_path_to_base64("f".to_string(), Some(&bytes.to_vec())).unwrap().base64;
    assert_eq!(encode(b""), "");
    assert_eq!(encode(b"f"), "Zg==");
    assert_eq!(encode(b"fo"), "Zm8=");
    assert_eq!(encode(b"foo"), "Zm9v");
    assert_eq!(encode(b"foobar"), "Zm9vYmFy");
    assert_eq!(encode(&[0xfb, 0xff, 0xfe]), "+//+");
    assert_eq!(img_path_to_base64("f".to_string(), None), None);
    assert_eq!(
        img_path_to_base64("/p/a.png".to_string(), Some(&b"hello".to_vec())),
        Some(encoded_image("/p/a.png".to_string(), "aGVsbG8=".to_string()))
    );
    assert_eq!(
        img_paths_to_base64(&vec![
            ImageFile { path: "a".to_string(), bytes: Some(b"hi".to_vec()) },
            ImageFile { path: "b".to_string(), bytes: None },
            ImageFile { path: "c".to_string(), bytes: Some(b"ho".to_vec()) },
        ]),
        vec![
            ImageBase64Search { base64: "aGk=".to_string(), path: "a".to_string() },
            ImageBase64Search { base64: "aG8=".to_string(), path: "c".to_string() },
        ]
    );
}

fn walk() -> Vec<PathEntry> {
    vec![
        path_entry("/d/a.png", Some("png"), true, false),
        path_entry("/d/b.txt", Some("txt"), true, false),
        path_entry("/d/sub.jpg", Some("jpg"), false, true),
        path_entry("/d/sub.jpg/c.jpeg", Some("jpeg"), true, false),
        path_entry("/d/noext", None, true, false),
        path_entry("/d/UP.PNG", Some("PNG"), true, false),
        path_entry("/d/link.jpg", Some("jpg"), false, false),
        PathEntry {
            path: "/d/bad\u{fffd}.png".to_string(),
            unicode: false,
            extension: Some("png".to_string()),
            is_file: true,
            is_dir: false,
        },
    ]
}

#[test]
fn a_disk_search_keeps_plain_image_files() {
    assert_eq!(
        search_images_at_path(&walk()),
        strings(&["/d/a.png", "/d/sub.jpg/c.jpeg", "/d/bad\u{fffd}.png"])
    );
    assert_eq!(search_images_at_path(&vec![]), Vec::<String>::new());
    assert!(walk()[0].is_image_file() && walk()[0].has_image_extension());
    assert!(!walk()[2].is_image_file() && walk()[2].has_image_extension());
}

#[test]
fn the_tools_report_one_path_per_line() {
    assert_eq!(
        get_images_from_path(&walk()),
        "/d/a.png\n/d/sub.jpg\n/d/sub.jpg/c.jpeg\n/d/link.jpg"
    );
    assert_eq!(search_images_from_path(&walk()), "/d/a.png\n/d/sub.jpg/c.jpeg\n/d/link.jpg");
    assert_eq!(get_images_from_path(&vec![]), "");
    assert_eq!(search_images_from_path(&vec![path_entry("x.png", Some("png"), true, false)]), "x.png");
}

#[test]
fn the_substring_tool_answers_in_words() {
    assert_eq!(path_contains_substring("/home/u/cat.png".to_string(), "cat".to_string()), "true");
    assert_eq!(path_contains_substring("/home/u/cat.png".to_string(), "dog".to_string()), "false");
    assert_eq!(path_contains_substring("/home/u/cat.png".to_string(), String::new()), "true");
    assert_eq!(path_contains_substring(String::new(), "a".to_string()), "false");
}
