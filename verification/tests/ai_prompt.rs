use automod_bot::automod::ai::{build_prompt, clean_reply, generate_request, generate_url, is_success_status};

#[test]
fn prompt_embeds_the_message() {
    let content = "buy cheap stuff";
    let expected = format!(
        "You are a strict Discord Auto-Moderation AI. Analyze the following message for spam, phishing, intense toxicity, or malicious intent.\n\n\
        Message: \"{}\"\n\n\
        Respond ONLY with a valid JSON object in this exact format, with no markdown formatting or extra text:\n\
        {{\"is_malicious\": true/false, \"reason\": \"short explanation\"}}",
        content
    );
    assert_eq!(build_prompt(content), expected);
}

#[test]
fn request_targets_the_generate_endpoint() {
    assert_eq!(generate_url("http://localhost:11434"), "http://localhost:11434/api/generate");
    let req = generate_request("deepseek-r1:8b", "hi");
    assert_eq!(req.model, "deepseek-r1:8b");
    assert_eq!(req.prompt, build_prompt("hi"));
    assert!(!req.stream);
}

#[test]
fn replies_are_cleaned_of_fences() {
    let raw = "```json\n{\"is_malicious\": false, \"reason\": \"ok\"}\n```";
    assert_eq!(clean_reply(raw), "{\"is_malicious\": false, \"reason\": \"ok\"}");
    let bare = "  {\"is_malicious\": true, \"reason\": \"scam\"}\n";
    assert_eq!(clean_reply(bare), "{\"is_malicious\": true, \"reason\": \"scam\"}");
    let fenced = "```\n{}\n```";
    assert_eq!(clean_reply(fenced), "{}");
}

#[test]
fn success_statuses_are_the_2xx_class() {
    assert!(is_success_status(200));
    assert!(is_success_status(204));
    assert!(is_success_status(299));
    assert!(!is_success_status(199));
    assert!(!is_success_status(300));
    assert!(!is_success_status(404));
    assert!(!is_success_status(500));
}
