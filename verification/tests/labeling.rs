use desk_imager::app::DeskApp;
use desk_imager::app_state::AppState;
use desk_imager::components::labels::Labeler;
use desk_imager::components::top_panel::LabelingStatus;
use desk_imager::components::Component;
use desk_imager::effects::{Effect, GenerationRequest, Reply};
use desk_imager::enums::{
    BroadcastMsg, DirectoryFiles, FileWithLabel, ImageBase64Search, OllamaModel, OllamaModelDetail,
};

fn strings(items: &[&str]) -> Vec<String> {
    items.iter().map(|s| s.to_string()).collect()
}

fn model(name: &str, families: &[&str]) -> OllamaModel {
    OllamaModel {
        name: name.to_string(),
        model: name.to_string(),
        size: 1,
        details: OllamaModelDetail {
            parent_model: String::new(),
            format: String::new(),
            family: String::new(),
            families: strings(families),
            parameter_size: String::new(),
            quantization_level: String::new(),
        },
    }
}

fn entry(file: &str, labels: &[&str]) -> FileWithLabel {
    FileWithLabel { file: file.to_string(), labels: strings(labels) }
}

fn record(dir: &str, entries: Vec<FileWithLabel>) -> DirectoryFiles {
    DirectoryFiles {
        dir: dir.to_string(),
        files: entries.iter().map(|e| e.file.clone()).collect(),
        files_with_labels: entries,
    }
}

fn state_with(records: Vec<DirectoryFiles>, models: Vec<OllamaModel>) -> AppState {
    let mut state = AppState::new(None);
    state.ollama_state.url = "http://server:11434".to_string();
    state.ollama_state.models = models;
    state.dir_files = records;
    state
}

fn wired_labeler(state: &AppState) -> Labeler {
    let mut labeler = Labeler::new();
    labeler.register_tx();
    labeler.register_app_state(state);
    labeler
}

fn label_request(file: &str, content: &[u8], base64: &str) -> Effect {
    let _ = content;
    Effect::Generate(GenerationRequest {
        url: "http://server".to_string(),
        port: 11434,
        model: "llava".to_string(),
        prompt: "List the main objects or elements in this image as simple labels, separated by commas."
            .to_string(),
        system: None,
        image: Some(ImageBase64Search { base64: base64.to_string(), path: file.to_string() }),
        deterministic: true,
        structured: false,
        reply: Reply::Labels(file.to_string()),
    })
}

/// Runs a whole sweep against `state`, answering every vision request with
/// `answer`, and returns the files for which a vision request was issued.
fn run_sweep(labeler: &mut Labeler, state: &mut AppState, answer: &str) -> (Vec<String>, Vec<Effect>) {
    let mut requested = Vec::new();
    let mut other = Vec::new();
    let mut effects = labeler.update(BroadcastMsg::StartLabeling, state);
    let mut guard = 0;
    while !effects.is_empty() {
        guard += 1;
        assert!(guard < 1000);
        let mut next = Vec::new();
        for effect in effects {
            match effect {
                Effect::ReadLabelImage(file) => {
                    next.extend(labeler.label_image(file, Some(b"img".to_vec()), state));
                }
                Effect::Generate(request) => {
                    assert_eq!(request.model, "llava");
                    let file = match &request.reply {
                        Reply::Labels(file) => file.clone(),
                        other => panic!("unexpected purpose {:?}", other),
                    };
                    requested.push(file);
                    let event = request.reply.event(answer.to_string(), None).unwrap();
                    state.update(event.clone());
                    next.extend(labeler.update(event, state));
                }
                effect => other.push(effect),
            }
        }
        effects = next;
    }
    (requested, other)
}

#[test]
fn a_sweep_asks_once_for_each_unlabeled_file_and_for_no_other() {
    let mut entries = Vec::new();
    for i in 0..10 {
        let file = format!("/pics/{}.png", i);
        if i % 4 == 1 {
            entries.push(entry(&file, &["known"]));
        } else {
            entries.push(entry(&file, &[]));
        }
    }
    assert_eq!(entries.iter().filter(|e| !e.labels.is_empty()).count(), 3);
    let mut state = state_with(vec![record("/pics", entries)], vec![model("llava", &["clip"])]);
    let mut labeler = wired_labeler(&state);
    let (requested, other) = run_sweep(&mut labeler, &mut state, "thing");
    assert_eq!(requested.len(), 7);
    let mut expected: Vec<String> =
        [0, 2, 3, 4, 6, 7, 8].iter().map(|i| format!("/pics/{}.png", i)).collect();
    expected.reverse();
    assert_eq!(requested, expected);
    assert_eq!(other, vec![Effect::Emit(BroadcastMsg::FinishLabeling)]);
    assert!(state.dir_files[0].files_with_labels.iter().all(|e| !e.labels.is_empty()));
    assert_eq!(state.dir_files[0].files_with_labels[1].labels, strings(&["known"]));
    assert_eq!(state.dir_files[0].files_with_labels[0].labels, strings(&["thing"]));
}

#[test]
fn a_second_sweep_finds_nothing_to_do() {
    let mut state = state_with(
        vec![record("/a", vec![entry("/a/1.png", &[])]), record("/b", vec![entry("/b/2.png", &[])])],
        vec![model("llava", &["clip"])],
    );
    let mut labeler = wired_labeler(&state);
    let (requested, _) = run_sweep(&mut labeler, &mut state, "x, y");
    assert_eq!(requested, strings(&["/b/2.png", "/a/1.png"]));
    let (again, other) = run_sweep(&mut labeler, &mut state, "x, y");
    assert_eq!(again, Vec::<String>::new());
    assert_eq!(other, vec![Effect::Emit(BroadcastMsg::FinishLabeling)]);
}

#[test]
fn a_sweep_over_nothing_finishes_at_once() {
    let state = state_with(vec![], vec![model("llava", &["clip"])]);
    let mut labeler = wired_labeler(&state);
    assert_eq!(
        labeler.update(BroadcastMsg::StartLabeling, &state),
        vec![Effect::Emit(BroadcastMsg::FinishLabeling)]
    );
    assert!(labeler.files_to_label().is_empty());
}

#[test]
fn an_unreadable_file_is_skipped_and_the_sweep_goes_on() {
    let state = state_with(
        vec![record("/a", vec![entry("/a/1.png", &[]), entry("/a/2.png", &[])])],
        vec![model("llava", &["clip"])],
    );
    let mut labeler = wired_labeler(&state);
    assert_eq!(
        labeler.update(BroadcastMsg::StartLabeling, &state),
        vec![Effect::ReadLabelImage("/a/2.png".to_string())]
    );
    assert_eq!(
        labeler.label_image("/a/2.png".to_string(), None, &state),
        vec![Effect::ReadLabelImage("/a/1.png".to_string())]
    );
    assert_eq!(
        labeler.label_image("/a/1.png".to_string(), None, &state),
        vec![Effect::Emit(BroadcastMsg::FinishLabeling)]
    );
}

#[test]
fn a_readable_file_goes_to_the_first_vision_model() {
    let state = state_with(
        vec![record("/a", vec![entry("/a/1.png", &[])])],
        vec![model("phi", &["phi"]), model("llava", &["clip"]), model("moondream", &["clip"])],
    );
    let mut labeler = wired_labeler(&state);
    labeler.update(BroadcastMsg::StartLabeling, &state);
    assert_eq!(
        labeler.label_image("/a/1.png".to_string(), Some(b"hello".to_vec()), &state),
        vec![label_request("/a/1.png", b"hello", "aGVsbG8=")]
    );
}

#[test]
fn without_a_vision_model_nothing_is_asked() {
    let state = state_with(vec![record("/a", vec![entry("/a/1.png", &[])])], vec![model("phi", &["phi"])]);
    let mut labeler = wired_labeler(&state);
    assert_eq!(
        labeler.update(BroadcastMsg::StartLabeling, &state),
        vec![Effect::ReadLabelImage("/a/1.png".to_string())]
    );
    assert_eq!(labeler.label_image("/a/1.png".to_string(), Some(vec![1, 2, 3]), &state), vec![]);
}

#[test]
fn an_unconnected_labeler_sees_no_files_and_says_nothing() {
    let state = state_with(vec![record("/a", vec![entry("/a/1.png", &[])])], vec![model("llava", &["clip"])]);
    let mut labeler = Labeler::new();
    assert_eq!(labeler.update(BroadcastMsg::StartLabeling, &state), vec![]);
    assert!(labeler.files_to_label().is_empty());
    labeler.register_tx();
    assert_eq!(
        labeler.update(BroadcastMsg::StartLabeling, &state),
        vec![Effect::Emit(BroadcastMsg::FinishLabeling)]
    );
}

#[test]
fn other_events_leave_the_labeler_alone() {
    let state = state_with(vec![record("/a", vec![entry("/a/1.png", &[]), entry("/a/2.png", &[])])], vec![]);
    let mut labeler = wired_labeler(&state);
    labeler.update(BroadcastMsg::StartLabeling, &state);
    assert_eq!(labeler.files_to_label(), &strings(&["/a/1.png"]));
    assert_eq!(labeler.update(BroadcastMsg::StopLabeling, &state), vec![]);
    assert_eq!(labeler.update(BroadcastMsg::FinishLabeling, &state), vec![]);
    assert_eq!(labeler.files_to_label(), &strings(&["/a/1.png"]));
}

#[test]
fn cat_and_dog_end_to_end() {
    let mut app = DeskApp::new(None);
    app.init();
    app.update(vec![
        BroadcastMsg::SetOllamaURL("http://server:11434".to_string()),
        BroadcastMsg::SetOllamaModels(vec![model("llava", &["llama", "clip"])]),
        BroadcastMsg::DirectoryFiles("/home/u/pics".to_string(), strings(&["cat.png", "dog.png"])),
        BroadcastMsg::GetLabelsForImage("dog.png".to_string(), "dog".to_string()),
    ]);
    assert_eq!(app.top_panel.labeling_status(), LabelingStatus::Waiting(1, 2));

    // The user triggers labeling.
    let effects = app.update(vec![BroadcastMsg::StartLabeling]);
    assert_eq!(effects, vec![Effect::ReadLabelImage("cat.png".to_string())]);
    assert_eq!(app.top_panel.labeling_status(), LabelingStatus::Running(1, 2));

    // The host read the file: exactly one vision request, for cat.png.
    let effects = app.labeler.label_image("cat.png".to_string(), Some(b"hello".to_vec()), &app.app_state);
    assert_eq!(effects, vec![label_request("cat.png", b"hello", "aGVsbG8=")]);
    let request = match effects.into_iter().next() {
        Some(Effect::Generate(request)) => request,
        other => panic!("unexpected {:?}", other),
    };

    // The model answers; the answer comes back over the bus.
    let event = request.reply.event("cat, animal".to_string(), None).unwrap();
    assert_eq!(event, BroadcastMsg::GetLabelsForImage("cat.png".to_string(), "cat, animal".to_string()));
    let effects = app.update(vec![event]);
    assert_eq!(
        app.app_state.dir_files[0].files_with_labels,
        vec![entry("cat.png", &["cat", "animal"]), entry("dog.png", &["dog"])]
    );
    assert_eq!(effects, vec![Effect::Emit(BroadcastMsg::FinishLabeling)]);
    assert_eq!(app.top_panel.labeling_status(), LabelingStatus::AllDone);
    assert!(app.labeler.files_to_label().is_empty());

    // Nothing more happens when the announcement arrives.
    assert_eq!(app.update(vec![BroadcastMsg::FinishLabeling]), vec![]);
}
