use mirmir_tui::app::App;
use mirmir_tui::chat_settings::{ChatParameters, RealFields, parse};
use mirmir_tui::dialogs::ChatSettingsDialog;
use mirmir_tui::records::{AttachedImage, GenerateRequest, Message};

fn message(role: &str, content: &str) -> Message {
    Message {
        role: role.to_owned(),
        content: content.to_owned(),
        thought: String::new(),
    }
}

/// What the real-valued fields of a chat parameter dialog read as, checked as the dashboard
/// checks them.
fn reals(dialog: &ChatSettingsDialog) -> RealFields {
    let temperature = dialog.fields[1].parse::<f32>().ok();
    let top_p = dialog.fields[2].parse::<f32>().ok();
    let penalty = dialog.fields[4].parse::<f32>().ok();
    RealFields {
        temperature: temperature.map(|v| v.to_string()),
        top_p: top_p.map(|v| v.to_string()),
        repetition_penalty: penalty.map(|v| v.to_string()),
        temperature_valid: temperature.is_some_and(|v| v.is_finite() && v >= 0.0),
        top_p_valid: top_p.is_some_and(|v| v.is_finite() && (0.0..=1.0).contains(&v)),
        repetition_penalty_positive: penalty.is_some_and(|v| v > 0.0),
    }
}

#[test]
fn attaches_image_to_latest_user_message_only() {
    let mut app = App::new(true);
    app.chat_messages = vec![
        message("user", "first"),
        message("assistant", "answer"),
        message("user", "second"),
    ];
    app.chat_image = Some(AttachedImage {
        name: "pixel.png".to_owned(),
        bytes: b"image".to_vec(),
    });

    let messages = app.messages_for_request();

    assert_eq!(messages[0].content, "first");
    assert_eq!(messages[2].content, format!("{}\nsecond", libmir::IMAGE_PLACEHOLDER));
}

#[test]
fn validates_ranges_and_optional_seed() {
    let mut dialog = ChatSettingsDialog::inspecting("model".to_owned());
    dialog.fields = ["128", "0.7", "0.9", "40", "1.1", ""].map(str::to_owned);
    assert_eq!(dialog.parameters(&reals(&dialog)).expect("valid settings").seed, None);
    dialog.fields[2] = "1.1".to_owned();
    assert!(dialog.parameters(&reals(&dialog)).is_err());
}

#[test]
fn accepts_zero_top_k_as_unbounded_sampling() {
    let mut dialog = ChatSettingsDialog::inspecting("model".to_owned());
    dialog.fields = ["128", "1", "1", "0", "1", ""].map(str::to_owned);

    assert_eq!(
        dialog.parameters(&reals(&dialog)).expect("unbounded top-k should be valid").top_k,
        0
    );
}

#[test]
fn applies_parameters_only_to_the_matching_model() {
    let mut app = App::new(true);
    app.chat_parameters = Some(ChatParameters {
        model: "selected".to_owned(),
        max_tokens: 64,
        temperature: "0.5".to_owned(),
        top_p: "0.8".to_owned(),
        top_k: 20,
        repetition_penalty: "1.1".to_owned(),
        seed: Some(42),
    });
    let mut request = GenerateRequest {
        model: "selected".to_owned(),
        ..Default::default()
    };
    app.apply_chat_parameters(&mut request);
    assert_eq!(request.max_tokens, Some(64));
    assert_eq!(request.seed, Some(42));
    request.model = "different".to_owned();
    request.max_tokens = None;
    app.apply_chat_parameters(&mut request);
    assert_eq!(request.max_tokens, None);
}

#[test]
fn dialog_gives_back_the_parameters_it_was_opened_on() {
    for seed in [None, Some(0), Some(18_446_744_073_709_551_615)] {
        let parameters = ChatParameters {
            model: "qwen".to_owned(),
            max_tokens: 4096,
            temperature: "0.7".to_owned(),
            top_p: "0.95".to_owned(),
            top_k: 40,
            repetition_penalty: "1.1".to_owned(),
            seed,
        };
        let dialog = ChatSettingsDialog::from_parameters(&parameters);
        let back = dialog.parameters(&reals(&dialog)).expect("valid parameters");
        assert_eq!(back.model, parameters.model);
        assert_eq!(back.max_tokens, parameters.max_tokens);
        assert_eq!(back.temperature, parameters.temperature);
        assert_eq!(back.top_p, parameters.top_p);
        assert_eq!(back.top_k, parameters.top_k);
        assert_eq!(back.repetition_penalty, parameters.repetition_penalty);
        assert_eq!(back.seed, parameters.seed);
    }
}

#[test]
fn integer_fields_read_as_str_parse_does() {
    assert_eq!(parse("42", "top k"), Ok(42));
    assert_eq!(parse("+7", "top k"), Ok(7));
    assert_eq!(parse("18446744073709551615", "seed"), Ok(u64::MAX));
    for bad in ["", "+", "-1", "1x", "18446744073709551616", "99999999999999999999"] {
        assert_eq!(parse(bad, "seed").is_err(), bad.parse::<u64>().is_err(), "{bad:?}");
        assert!(parse(bad, "seed").is_err());
    }
}
