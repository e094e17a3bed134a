use desk_imager::agents::chat::ChatAgent;
use desk_imager::agents::images::{is_affirmative, ImageAgent};
use desk_imager::agents::web_scrape::WebScrapeAgent;
use desk_imager::agents::{get_msg_vec, Agent, Coordinator};
use desk_imager::app_state::AppState;
use desk_imager::components::agents_panel::AgentPanel;
use desk_imager::components::Component;
use desk_imager::effects::{ChatRequest, Effect, GenerationRequest, Reply};
use desk_imager::enums::{
    has_model, AgentEnum, BroadcastMsg, ChatMessage, ImageBase64Search, ImageStructured,
    ImagesStructured, MessageRole, OllamaModel, OllamaModelDetail,
};
use desk_imager::utils::ImageFile;

fn strings(items: &[&str]) -> Vec<String> {
    items.iter().map(|s| s.to_string()).collect()
}

fn model(name: &str, families: &[&str]) -> OllamaModel {
    OllamaModel {
        name: name.to_string(),
        model: name.to_string(),
        size: 1,
        details: OllamaModelDetail {
            parent_model: String::new(),
            format: String::new(),
            family: String::new(),
            families: strings(families),
            parameter_size: String::new(),
            quantization_level: String::new(),
        },
    }
}

fn state(models: Vec<OllamaModel>, active: AgentEnum) -> AppState {
    let mut state = AppState::new(None);
    state.ollama_state.url = "http://server:11434".to_string();
    state.ollama_state.models = models;
    state.active_agent = active;
    state
}

fn turn(role: MessageRole, text: &str) -> ChatMessage {
    ChatMessage::new(role, text.to_string())
}

fn image(name: &str) -> ImageBase64Search {
    ImageBase64Search { base64: format!("b64-{}", name), path: name.to_string() }
}

fn structured(paths: &[&str]) -> ImagesStructured {
    ImagesStructured {
        images: paths
            .iter()
            .map(|p| ImageStructured {
                path: p.to_string(),
                name: "n".to_string(),
                extension: "jpg".to_string(),
            })
            .collect(),
    }
}

const CHAT_PROMPT: &str = "You are personal assistant. You will answer every question without hesitation. Keep your answers concise and informative.";

fn bound_chat_agent(shared: &AppState) -> ChatAgent {
    let mut agent = ChatAgent::new();
    agent.register_tx();
    agent.register_app_state(shared);
    agent.update(BroadcastMsg::OllamaModels(shared.ollama_state.models.clone()), shared);
    agent
}

#[test]
fn vision_answers_are_read_by_substring_in_any_case() {
    assert!(is_affirmative("Yes"));
    assert!(is_affirmative("true"));
    assert!(is_affirmative("TRUE sure"));
    assert!(!is_affirmative("no"));
    assert!(!is_affirmative(""));
    assert!(!is_affirmative("maybe"));
}

#[test]
fn vision_answers_more_cases() {
    assert!(is_affirmative("yes"));
    assert!(is_affirmative("YES."));
    assert!(is_affirmative("yEs"));
    assert!(is_affirmative("True"));
    assert!(is_affirmative("The answer is: tRuE!"));
    assert!(is_affirmative("eyes"));
    assert!(is_affirmative("untrue"));
    assert!(!is_affirmative("false"));
    assert!(!is_affirmative("False"));
    assert!(!is_affirmative("No."));
    assert!(!is_affirmative("ye s"));
    assert!(!is_affirmative("tru"));
    assert!(!is_affirmative("y\u{65}\u{301}s"));
    assert!(!is_affirmative("ｙｅｓ"));
}

#[test]
fn the_system_prompt_is_one_turn_unless_blank() {
    assert_eq!(get_msg_vec("be brief".to_string()), vec![turn(MessageRole::System, "be brief")]);
    assert_eq!(get_msg_vec(" be brief ".to_string()), vec![turn(MessageRole::System, " be brief ")]);
    assert_eq!(get_msg_vec(String::new()), vec![]);
    assert_eq!(get_msg_vec(" \n\t".to_string()), vec![]);
}

#[test]
fn agents_have_names_and_kinds() {
    let chat = ChatAgent::new();
    let web = WebScrapeAgent::new();
    let images = ImageAgent::new();
    assert_eq!((chat.name(), chat.agent()), ("chat", AgentEnum::Chat));
    assert_eq!((web.name(), web.agent()), ("Web Text Scraper", AgentEnum::WebScrape));
    assert_eq!((images.name(), images.agent()), ("Images", AgentEnum::Images));
    assert_eq!(chat.description(), "Simple chat agent");
    assert_eq!(images.description(), "Searching images in local PC");
    assert_eq!(chat.state.sys_msg, CHAT_PROMPT);
    assert!(web.state.sys_msg.contains("## Role"));
    assert!(images.state.sys_msg.contains("desktop assistant"));
    assert!(chat.state.is_idle());
}

#[test]
fn an_unconnected_agent_announces_nothing() {
    let mut agent = ChatAgent::new();
    assert_eq!(agent.send_selected_agent(), vec![]);
    agent.register_tx();
    assert_eq!(agent.send_selected_agent(), vec![Effect::Emit(BroadcastMsg::SelectAgent(AgentEnum::Chat))]);
}

#[test]
fn the_first_model_becomes_active_and_the_selected_agent_binds_to_it() {
    let shared = state(vec![model("a", &[]), model("b", &[])], AgentEnum::Chat);
    let mut agent = ChatAgent::new();
    agent.register_tx();
    agent.register_app_state(&shared);
    let effects = agent.update(BroadcastMsg::OllamaModels(shared.ollama_state.models.clone()), &shared);
    assert_eq!(effects, vec![Effect::Emit(BroadcastMsg::SelectAgentModel(model("a", &[])))]);
    assert_eq!(agent.state.active_model, Some(model("a", &[])));
    assert_eq!(
        agent.state.coordinator,
        Some(Coordinator { url: "http://server".to_string(), port: 11434, model: "a".to_string() })
    );
    assert_eq!(agent.state.models, shared.ollama_state.models);
}

#[test]
fn an_agent_that_is_not_selected_has_no_handle() {
    let shared = state(vec![model("a", &[])], AgentEnum::Images);
    let agent = bound_chat_agent(&shared);
    assert_eq!(agent.state.coordinator, None);
    assert_eq!(agent.state.active_model, Some(model("a", &[])));
    let mut agent = agent;
    assert_eq!(agent.update(BroadcastMsg::SendUserMessage(turn(MessageRole::User, "hi")), &shared), vec![]);
    assert!(agent.state.is_idle());
}

#[test]
fn an_empty_model_list_changes_no_choice() {
    let shared = state(vec![model("a", &[])], AgentEnum::Chat);
    let mut agent = bound_chat_agent(&shared);
    agent.state.history = vec![turn(MessageRole::User, "q"), turn(MessageRole::Assistant, "a")];
    assert_eq!(agent.update(BroadcastMsg::OllamaModels(vec![]), &shared), vec![]);
    assert_eq!(agent.state.active_model, Some(model("a", &[])));
    assert!(agent.state.models.is_empty());
    assert_eq!(agent.state.history.len(), 2);
    assert!(agent.state.coordinator.is_some());
}

#[test]
fn a_model_that_disappeared_is_replaced_by_the_first_one() {
    let shared = state(vec![model("a", &[]), model("b", &[])], AgentEnum::Images);
    let mut agent = bound_chat_agent(&shared);
    agent.select_model(model("b", &[]), &shared);
    agent.state.history = vec![turn(MessageRole::User, "q"), turn(MessageRole::Assistant, "a")];
    let later = state(vec![model("c", &[]), model("a", &[])], AgentEnum::Images);
    agent.update(BroadcastMsg::OllamaModels(later.ollama_state.models.clone()), &later);
    assert_eq!(agent.state.active_model, Some(model("c", &[])));
    assert_eq!(agent.state.history.len(), 0);
}

#[test]
fn a_model_that_is_still_offered_stays_active() {
    let shared = state(vec![model("a", &[]), model("b", &[])], AgentEnum::Chat);
    let mut agent = bound_chat_agent(&shared);
    agent.select_model(model("b", &[]), &shared);
    let later = state(vec![model("c", &[]), model("b", &[])], AgentEnum::Chat);
    agent.update(BroadcastMsg::OllamaModels(later.ollama_state.models.clone()), &later);
    assert_eq!(agent.state.active_model, Some(model("b", &[])));
    assert!(has_model(&agent.state.models, &model("b", &[])));
    assert!(!has_model(&agent.state.models, &model("a", &[])));
    assert!(!has_model(&agent.state.models, &model("b", &["clip"])));
}

#[test]
fn selecting_a_different_model_clears_the_history() {
    let shared = state(vec![model("a", &[]), model("b", &[])], AgentEnum::Chat);
    let mut agent = bound_chat_agent(&shared);
    agent.state.history = vec![turn(MessageRole::User, "q"), turn(MessageRole::Assistant, "a")];
    let effects = agent.select_model(model("b", &[]), &shared);
    assert_eq!(agent.state.history.len(), 0);
    assert_eq!(agent.state.active_model, Some(model("b", &[])));
    assert_eq!(agent.state.coordinator.as_ref().map(|c| c.model.as_str()), Some("b"));
    assert_eq!(effects, vec![Effect::Emit(BroadcastMsg::SelectAgentModel(model("b", &[])))]);
}

#[test]
fn selecting_the_active_model_again_changes_nothing() {
    let shared = state(vec![model("a", &[]), model("b", &[])], AgentEnum::Chat);
    let mut agent = bound_chat_agent(&shared);
    agent.state.history = vec![turn(MessageRole::User, "q"), turn(MessageRole::Assistant, "a")];
    assert_eq!(agent.select_model(model("a", &[]), &shared), vec![]);
    assert_eq!(agent.state.history.len(), 2);
}

#[test]
fn every_agent_clears_its_history_on_a_model_change() {
    let shared = state(vec![model("a", &[]), model("b", &[])], AgentEnum::Chat);
    let history = vec![turn(MessageRole::User, "q"), turn(MessageRole::Assistant, "a")];
    let mut web = WebScrapeAgent::new();
    web.state.history = history.clone();
    web.select_model(model("b", &[]), &shared);
    assert_eq!(web.state.history.len(), 0);
    let mut images = ImageAgent::new();
    images.state.history = history.clone();
    images.select_model(model("b", &[]), &shared);
    assert_eq!(images.state.history.len(), 0);
    let mut chat = ChatAgent::new();
    chat.state.history = history;
    chat.state.change_active_model(&shared);
    assert_eq!(chat.state.history.len(), 2);
    chat.state.active_model = Some(model("a", &[]));
    chat.state.change_active_model(&shared);
    assert_eq!(chat.state.history.len(), 0);
}

#[test]
fn selecting_an_agent_clears_the_history() {
    let shared = state(vec![model("a", &[])], AgentEnum::Chat);
    let mut agent = bound_chat_agent(&shared);
    agent.state.history = vec![turn(MessageRole::User, "q")];
    agent.update(BroadcastMsg::SelectAgent(AgentEnum::WebScrape), &shared);
    assert_eq!(agent.state.history.len(), 0);
    assert_eq!(agent.state.coordinator, None);
    agent.state.history = vec![turn(MessageRole::User, "q")];
    let effects = agent.update(BroadcastMsg::SelectAgent(AgentEnum::Chat), &shared);
    assert_eq!(agent.state.history.len(), 0);
    assert!(agent.state.coordinator.is_some());
    assert_eq!(effects, vec![Effect::Emit(BroadcastMsg::SelectAgentModel(model("a", &[])))]);
}

fn chat_request(messages: Vec<ChatMessage>, model: &str) -> ChatRequest {
    ChatRequest {
        agent: AgentEnum::Chat,
        url: "http://server".to_string(),
        port: 11434,
        model: model.to_string(),
        messages,
    }
}

#[test]
fn a_user_message_is_sent_with_the_full_context() {
    let shared = state(vec![model("a", &[])], AgentEnum::Chat);
    let mut agent = bound_chat_agent(&shared);
    agent.state.history = vec![turn(MessageRole::User, "q1"), turn(MessageRole::Assistant, "a1")];
    let effects = agent.update(BroadcastMsg::SendUserMessage(turn(MessageRole::User, "q2")), &shared);
    assert_eq!(
        effects,
        vec![Effect::Chat(chat_request(
            vec![
                turn(MessageRole::System, CHAT_PROMPT),
                turn(MessageRole::User, "q1"),
                turn(MessageRole::Assistant, "a1"),
                turn(MessageRole::User, "q2"),
            ],
            "a"
        ))]
    );
    assert!(!agent.state.is_idle());
    assert_eq!(agent.state.pending, 1);
}

#[test]
fn a_blank_system_prompt_is_left_out_of_the_context() {
    let shared = state(vec![model("a", &[])], AgentEnum::Chat);
    let mut agent = bound_chat_agent(&shared);
    agent.set_sys_msg("  \n".to_string());
    let effects = agent.update(BroadcastMsg::SendUserMessage(turn(MessageRole::User, "q")), &shared);
    assert_eq!(effects, vec![Effect::Chat(chat_request(vec![turn(MessageRole::User, "q")], "a"))]);
}

#[test]
fn a_reply_is_announced_and_kept() {
    let shared = state(vec![model("a", &[])], AgentEnum::Chat);
    let mut agent = bound_chat_agent(&shared);
    let effects = agent.update(BroadcastMsg::SendUserMessage(turn(MessageRole::User, "q")), &shared);
    let request = match effects.into_iter().next() {
        Some(Effect::Chat(request)) => request,
        other => panic!("unexpected {:?}", other),
    };
    let effects = agent.send_chat_msg(request, Some(turn(MessageRole::Assistant, "a")));
    assert_eq!(effects, vec![Effect::Emit(BroadcastMsg::GetChatReponse(turn(MessageRole::Assistant, "a")))]);
    assert_eq!(agent.state.history, vec![turn(MessageRole::User, "q"), turn(MessageRole::Assistant, "a")]);
    assert!(agent.state.is_idle());
}

#[test]
fn a_failed_round_trip_is_silent() {
    let shared = state(vec![model("a", &[])], AgentEnum::Chat);
    let mut agent = bound_chat_agent(&shared);
    let effects = agent.update(BroadcastMsg::SendUserMessage(turn(MessageRole::User, "q")), &shared);
    let request = match effects.into_iter().next() {
        Some(Effect::Chat(request)) => request,
        other => panic!("unexpected {:?}", other),
    };
    assert_eq!(agent.send_chat_msg(request, None), vec![]);
    assert!(agent.state.history.is_empty());
    assert!(agent.state.is_idle());
}

#[test]
fn a_reply_of_a_model_that_is_no_longer_bound_is_shown_but_not_kept() {
    let shared = state(vec![model("a", &[]), model("b", &[])], AgentEnum::Chat);
    let mut agent = bound_chat_agent(&shared);
    let effects = agent.update(BroadcastMsg::SendUserMessage(turn(MessageRole::User, "q")), &shared);
    let request = match effects.into_iter().next() {
        Some(Effect::Chat(request)) => request,
        other => panic!("unexpected {:?}", other),
    };
    agent.select_model(model("b", &[]), &shared);
    let effects = agent.send_chat_msg(request, Some(turn(MessageRole::Assistant, "late")));
    assert_eq!(effects, vec![Effect::Emit(BroadcastMsg::GetChatReponse(turn(MessageRole::Assistant, "late")))]);
    assert!(agent.state.history.is_empty());
}

#[test]
fn the_web_agent_chats_as_the_chat_agent_does() {
    let shared = state(vec![model("a", &[])], AgentEnum::WebScrape);
    let mut agent = WebScrapeAgent::new();
    agent.register_tx();
    agent.register_app_state(&shared);
    agent.update(BroadcastMsg::OllamaModels(shared.ollama_state.models.clone()), &shared);
    agent.set_sys_msg("s".to_string());
    let effects = agent.update(BroadcastMsg::SendUserMessage(turn(MessageRole::User, "q")), &shared);
    let expected = ChatRequest {
        agent: AgentEnum::WebScrape,
        url: "http://server".to_string(),
        port: 11434,
        model: "a".to_string(),
        messages: vec![turn(MessageRole::System, "s"), turn(MessageRole::User, "q")],
    };
    assert_eq!(effects, vec![Effect::Chat(expected)]);
}

fn wired_image_agent(shared: &AppState) -> ImageAgent {
    let mut agent = ImageAgent::new();
    agent.register_tx();
    agent.register_app_state(shared);
    agent.update(BroadcastMsg::OllamaModels(shared.ollama_state.models.clone()), shared);
    agent
}

fn generation(prompt: &str, system: Option<&str>, structured: bool, reply: Reply) -> Effect {
    Effect::Generate(GenerationRequest {
        url: "http://server".to_string(),
        port: 11434,
        model: "a".to_string(),
        prompt: prompt.to_string(),
        system: system.map(|s| s.to_string()),
        image: None,
        deterministic: true,
        structured,
        reply,
    })
}

#[test]
fn a_user_message_is_classified_first() {
    let shared = state(vec![model("a", &[])], AgentEnum::Images);
    let mut agent = wired_image_agent(&shared);
    let effects = agent.update(BroadcastMsg::SendUserMessage(turn(MessageRole::User, "find cats")), &shared);
    assert_eq!(
        effects,
        vec![generation(
            "find cats",
            Some(desk_imager::agents::images::INTENT_SYS_MSG),
            false,
            Reply::Intent(turn(MessageRole::User, "find cats"))
        )]
    );
    assert!(desk_imager::agents::images::INTENT_SYS_MSG.contains("Only return 'true' or 'false'"));
}

#[test]
fn without_an_active_model_nothing_is_generated() {
    let shared = state(vec![], AgentEnum::Images);
    let mut agent = wired_image_agent(&shared);
    assert_eq!(agent.update(BroadcastMsg::SendUserMessage(turn(MessageRole::User, "x")), &shared), vec![]);
    assert_eq!(agent.update(BroadcastMsg::GetStructuredOutput("x".to_string()), &shared), vec![]);
}

#[test]
fn a_search_intent_with_an_index_is_rephrased() {
    let shared = state(vec![model("a", &[])], AgentEnum::Images);
    let mut agent = wired_image_agent(&shared);
    agent.update(BroadcastMsg::GetFoundImages(structured(&["/p/1.jpg"])), &shared);
    let effects = agent.update(
        BroadcastMsg::GetDescriptionImageSearch("true".to_string(), turn(MessageRole::User, "a cat")),
        &shared,
    );
    assert_eq!(
        effects,
        vec![generation(
            "a cat",
            Some(desk_imager::agents::images::REPHRASE_SYS_MSG),
            false,
            Reply::Rephrased
        )]
    );
    assert!(agent.state.is_idle());
}

#[test]
fn any_other_intent_goes_to_the_tool_chat() {
    let shared = state(vec![model("a", &[])], AgentEnum::Images);
    let expected = |text: &str| {
        vec![Effect::Chat(ChatRequest {
            agent: AgentEnum::Images,
            url: "http://server".to_string(),
            port: 11434,
            model: "a".to_string(),
            messages: vec![
                turn(MessageRole::System, desk_imager::agents::images::SYS_MSG),
                turn(MessageRole::User, text),
            ],
        })]
    };
    // No index yet: even a search intent falls through.
    let mut agent = wired_image_agent(&shared);
    let effects = agent.update(
        BroadcastMsg::GetDescriptionImageSearch("true".to_string(), turn(MessageRole::User, "a cat")),
        &shared,
    );
    assert_eq!(effects, expected("a cat"));
    // With an index, only the exact answer counts as a search intent.
    for answer in ["false", "True", "true.", "yes", ""] {
        let mut agent = wired_image_agent(&shared);
        agent.update(BroadcastMsg::GetFoundImages(structured(&["/p/1.jpg"])), &shared);
        let effects = agent.update(
            BroadcastMsg::GetDescriptionImageSearch(answer.to_string(), turn(MessageRole::User, "list")),
            &shared,
        );
        assert_eq!(effects, expected("list"), "for {:?}", answer);
    }
}

#[test]
fn a_tool_chat_reply_is_shown_and_handed_on_for_structure() {
    let shared = state(vec![model("a", &[])], AgentEnum::Images);
    let mut agent = wired_image_agent(&shared);
    let effects = agent.update(
        BroadcastMsg::GetDescriptionImageSearch("false".to_string(), turn(MessageRole::User, "list")),
        &shared,
    );
    let request = match effects.into_iter().next() {
        Some(Effect::Chat(request)) => request,
        other => panic!("unexpected {:?}", other),
    };
    let reply = turn(MessageRole::Assistant, "- a.png: /p/a.png");
    let effects = agent.send_chat_msg(request, Some(reply.clone()));
    assert_eq!(
        effects,
        vec![
            Effect::Emit(BroadcastMsg::GetChatSubReponse(reply.clone())),
            Effect::Emit(BroadcastMsg::GetStructuredOutput("- a.png: /p/a.png".to_string())),
        ]
    );
    assert_eq!(agent.state.history, vec![turn(MessageRole::User, "list"), reply]);
    let effects = agent.update(BroadcastMsg::GetStructuredOutput("- a.png: /p/a.png".to_string()), &shared);
    assert_eq!(effects, vec![generation("- a.png: /p/a.png", None, true, Reply::Structured)]);
}

#[test]
fn the_first_found_images_become_the_index_and_stay_it() {
    let shared = state(vec![model("a", &[])], AgentEnum::Images);
    let mut agent = wired_image_agent(&shared);
    assert_eq!(agent.all_found_images, None);
    agent.update(BroadcastMsg::GetFoundImages(structured(&["/p/1.jpg", "/p/2.jpg"])), &shared);
    assert_eq!(agent.all_found_images, Some(structured(&["/p/1.jpg", "/p/2.jpg"])));
    agent.update(BroadcastMsg::GetFoundImages(structured(&["/p/3.jpg"])), &shared);
    assert_eq!(agent.all_found_images, Some(structured(&["/p/1.jpg", "/p/2.jpg"])));
}

#[test]
fn a_rephrased_question_asks_for_the_indexed_images() {
    let shared = state(vec![model("a", &[])], AgentEnum::Images);
    let mut agent = wired_image_agent(&shared);
    assert_eq!(agent.update(BroadcastMsg::GetRephraseImageSearchPrompt("Is a cat on this picture?".to_string()), &shared), vec![]);
    agent.update(BroadcastMsg::GetFoundImages(structured(&["/p/1.jpg", "/p/2.jpg"])), &shared);
    assert_eq!(
        agent.update(BroadcastMsg::GetRephraseImageSearchPrompt("Is a cat on this picture?".to_string()), &shared),
        vec![Effect::ReadSearchImages("Is a cat on this picture?".to_string(), strings(&["/p/1.jpg", "/p/2.jpg"]))]
    );
}

#[test]
fn a_new_sweep_replaces_the_working_set_of_the_old_one() {
    let mut agent = ImageAgent::new();
    agent.images_to_search = vec![image("A"), image("B"), image("C")];
    agent.images_found = vec![];
    agent.reset_vision_search(vec![image("D"), image("E")]);
    assert_eq!(agent.images_to_search, vec![image("D"), image("E")]);
    assert_eq!(agent.images_found, vec![]);

    let mut agent = ImageAgent::new();
    agent.images_to_search = vec![image("A"), image("B"), image("C")];
    agent.images_found = vec![image("Z")];
    agent.reset_vision_search(vec![]);
    assert_eq!(agent.images_to_search, vec![]);
    assert_eq!(agent.images_found, vec![]);
}

fn vision_request(prompt: &str, img: ImageBase64Search, vision: &str) -> Effect {
    Effect::Generate(GenerationRequest {
        url: "http://server".to_string(),
        port: 11434,
        model: vision.to_string(),
        prompt: format!("{}. Answer alway only with 'true' or 'false'.", prompt),
        system: Some(desk_imager::agents::images::VISION_SYS_MSG.to_string()),
        image: Some(img.clone()),
        deterministic: true,
        structured: false,
        reply: Reply::Vision(prompt.to_string(), img),
    })
}

#[test]
fn a_second_sweep_discards_what_the_first_left() {
    let shared = state(vec![model("a", &[]), model("llava", &["clip"])], AgentEnum::Images);
    let mut agent = wired_image_agent(&shared);
    agent.images_to_search = vec![image("A"), image("B"), image("C")];
    agent.images_found = vec![image("Z")];
    let files = vec![
        ImageFile { path: "D".to_string(), bytes: Some(b"hello".to_vec()) },
        ImageFile { path: "E".to_string(), bytes: Some(b"hi".to_vec()) },
    ];
    let d = ImageBase64Search { base64: "aGVsbG8=".to_string(), path: "D".to_string() };
    let e = ImageBase64Search { base64: "aGk=".to_string(), path: "E".to_string() };
    let effects = agent.start_vision_search("Q".to_string(), &files, &shared);
    // The last image is taken at once; with it, the working set is exactly D and E.
    assert_eq!(effects, vec![vision_request("Q", e.clone(), "llava")]);
    assert_eq!(agent.images_to_search, vec![d.clone()]);
    assert_eq!(agent.images_found, vec![]);
    let effects = agent.update(BroadcastMsg::GetVisionSeachResult("Q".to_string(), "true".to_string(), e.clone()), &shared);
    assert_eq!(effects, vec![vision_request("Q", d.clone(), "llava")]);
    let effects = agent.update(BroadcastMsg::GetVisionSeachResult("Q".to_string(), "false".to_string(), d), &shared);
    assert_eq!(
        effects,
        vec![Effect::Emit(BroadcastMsg::GetFoundImages(ImagesStructured {
            images: vec![ImageStructured {
                path: "E".to_string(),
                name: "test".to_string(),
                extension: "png".to_string()
            }]
        }))]
    );
    assert_eq!(agent.images_found, vec![e]);
}

#[test]
fn unreadable_images_are_left_out_of_a_sweep() {
    let shared = state(vec![model("llava", &["clip"])], AgentEnum::Images);
    let mut agent = wired_image_agent(&shared);
    let files = vec![
        ImageFile { path: "gone".to_string(), bytes: None },
        ImageFile { path: "D".to_string(), bytes: Some(vec![]) },
        ImageFile { path: "lost".to_string(), bytes: None },
    ];
    let d = ImageBase64Search { base64: String::new(), path: "D".to_string() };
    assert_eq!(agent.start_vision_search("Q".to_string(), &files, &shared), vec![vision_request("Q", d, "llava")]);
    assert_eq!(agent.images_to_search, vec![]);
}

#[test]
fn a_sweep_over_nothing_reports_nothing_found() {
    let shared = state(vec![model("llava", &["clip"])], AgentEnum::Images);
    let mut agent = wired_image_agent(&shared);
    agent.images_found = vec![image("old")];
    assert_eq!(
        agent.start_vision_search("Q".to_string(), &vec![], &shared),
        vec![Effect::Emit(BroadcastMsg::GetFoundImages(ImagesStructured { images: vec![] }))]
    );
}

#[test]
fn without_a_vision_model_the_question_goes_to_the_chat() {
    let shared = state(vec![model("a", &[])], AgentEnum::Images);
    let mut agent = wired_image_agent(&shared);
    let files = vec![ImageFile { path: "D".to_string(), bytes: Some(vec![1]) }];
    let effects = agent.start_vision_search("Q".to_string(), &files, &shared);
    assert_eq!(
        effects,
        vec![Effect::Chat(ChatRequest {
            agent: AgentEnum::Images,
            url: "http://server".to_string(),
            port: 11434,
            model: "a".to_string(),
            messages: vec![
                turn(MessageRole::System, desk_imager::agents::images::SYS_MSG),
                turn(MessageRole::User, "Q"),
            ],
        })]
    );
    assert_eq!(agent.images_to_search, vec![]);
}

#[test]
fn only_a_yes_counts_an_image_as_found() {
    let mut agent = ImageAgent::new();
    agent.validate_checked_image("no".to_string(), image("A"));
    agent.validate_checked_image("Yes, it is".to_string(), image("B"));
    agent.validate_checked_image(String::new(), image("C"));
    agent.validate_checked_image("TRUE".to_string(), image("D"));
    assert_eq!(agent.images_found, vec![image("B"), image("D")]);
}

#[test]
fn the_panel_serves_its_agents_in_order() {
    let shared = state(vec![model("a", &[])], AgentEnum::Images);
    let mut panel = AgentPanel::new();
    panel.register_tx();
    panel.register_app_state(&shared);
    assert_eq!(panel.init(&shared), vec![]);
    let effects = panel.update(BroadcastMsg::OllamaModels(shared.ollama_state.models.clone()), &shared);
    assert_eq!(effects, vec![Effect::Emit(BroadcastMsg::SelectAgentModel(model("a", &[])))]);
    assert!(panel.chat_agent.state.coordinator.is_none());
    assert!(panel.websearch_agent.state.coordinator.is_none());
    assert!(panel.images_agent.state.coordinator.is_some());
    let effects = panel.update(BroadcastMsg::SelectAgent(AgentEnum::Chat), &shared);
    assert_eq!(effects, vec![Effect::Emit(BroadcastMsg::SelectAgentModel(model("a", &[])))]);
    assert!(panel.chat_agent.state.coordinator.is_some());
    assert!(panel.images_agent.state.coordinator.is_none());
    // A user message reaches the bound chat agent and, always, the image agent's classifier.
    let effects = panel.update(BroadcastMsg::SendUserMessage(turn(MessageRole::User, "hi")), &shared);
    assert_eq!(effects.len(), 2);
    assert!(matches!(&effects[0], Effect::Chat(request) if request.agent == AgentEnum::Chat));
    assert!(matches!(&effects[1], Effect::Generate(request) if matches!(request.reply, Reply::Intent(_))));
}

#[test]
fn replies_become_the_events_that_continue_the_pipeline() {
    let user = turn(MessageRole::User, "q");
    assert_eq!(
        Reply::Intent(user.clone()).event("true".to_string(), None),
        Some(BroadcastMsg::GetDescriptionImageSearch("true".to_string(), user))
    );
    assert_eq!(
        Reply::Rephrased.event("Is x on this picture?".to_string(), None),
        Some(BroadcastMsg::GetRephraseImageSearchPrompt("Is x on this picture?".to_string()))
    );
    assert_eq!(
        Reply::Vision("Q".to_string(), image("A")).event("no".to_string(), None),
        Some(BroadcastMsg::GetVisionSeachResult("Q".to_string(), "no".to_string(), image("A")))
    );
    assert_eq!(
        Reply::Labels("f".to_string()).event("a, b".to_string(), Some(structured(&["x"]))),
        Some(BroadcastMsg::GetLabelsForImage("f".to_string(), "a, b".to_string()))
    );
    assert_eq!(Reply::Structured.event("not json".to_string(), None), None);
    assert_eq!(
        Reply::Structured.event("{..}".to_string(), Some(structured(&["x"]))),
        Some(BroadcastMsg::GetFoundImages(structured(&["x"])))
    );
}
