use nanogpt_cli::model_mode::{
    apply_web_mode, current_model_base, infer_from_flags, infer_from_model, parse_web_mode_arg,
    route_by_flags, strip_online_suffix, web_mode_display, web_mode_from_key, web_mode_key, web_mode_presets, WebMode,
};

#[test]
fn routing_is_set_and_read_back() {
    let mode = web_mode_from_key("exa-deep");
    let routed = apply_web_mode("openai/gpt-5.2:online", &mode);
    assert_eq!(routed, "openai/gpt-5.2:online/exa-deep");
    assert_eq!(infer_from_model(&routed), Some(mode));
    assert_eq!(apply_web_mode(&routed, &WebMode::Off), "openai/gpt-5.2");
}

#[test]
fn every_preset_key_is_accepted() {
    assert_eq!(web_mode_presets().len(), 21);
    for preset in web_mode_presets() {
        let mode = parse_web_mode_arg(preset.key).unwrap();
        assert_eq!(web_mode_key(&mode), Some(preset.key));
    }
}

#[test]
fn flags_choose_the_mode() {
    assert_eq!(infer_from_flags(false, false), WebMode::Off);
    assert_eq!(web_mode_key(&infer_from_flags(true, false)), Some("online"));
    assert_eq!(web_mode_key(&infer_from_flags(true, true)), Some("linkup-deep"));
    assert_eq!(infer_from_model("gpt"), None);
}

#[test]
fn modes_are_read_from_what_is_typed() {
    for arg in ["off", "NONE", " disable ", "disabled"] {
        assert_eq!(parse_web_mode_arg(arg), Ok(WebMode::Off), "{}", arg);
    }
    for arg in ["", "on", "standard", "online", "AUTO"] {
        assert_eq!(web_mode_key(&parse_web_mode_arg(arg).unwrap()), Some("online"), "{}", arg);
    }
    assert_eq!(web_mode_key(&parse_web_mode_arg("deep").unwrap()), Some("linkup-deep"));
    assert_eq!(
        parse_web_mode_arg("nonsense").unwrap_err(),
        "Usage: /webmode <off|on|deep|provider-mode>"
    );
}

#[test]
fn modes_are_shown() {
    assert_eq!(web_mode_display(&WebMode::Off), "off");
    assert_eq!(web_mode_display(&web_mode_from_key("online")), "online");
    assert_eq!(web_mode_display(&web_mode_from_key("exa-fast")), "exa-fast");
    assert_eq!(strip_online_suffix("a:online/exa-fast"), "a");
    assert_eq!(current_model_base("a:online"), "a");
    assert_eq!(current_model_base("a"), "a");
}

#[test]
fn flags_keep_a_routing_that_is_there() {
    assert_eq!(route_by_flags("m", true, false), "m:online");
    assert_eq!(route_by_flags("m", false, true), "m:online/linkup-deep");
    assert_eq!(route_by_flags("m:online/exa-fast", true, false), "m:online/exa-fast");
    assert_eq!(route_by_flags("m:online", false, true), "m:online");
    assert_eq!(route_by_flags("m:online", false, false), "m");
}
