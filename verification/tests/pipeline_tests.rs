use doxy_rewrite::pipeline::{transform, Config, Mode};

fn per_comment() -> Config {
    Config { mode: Mode::PerComment, symbol_prefixes: vec![String::from("NRF_")] }
}

fn whole_file() -> Config {
    Config { mode: Mode::WholeFile, symbol_prefixes: vec![String::from("NRF_")] }
}

#[test]
fn plain_text_unchanged() {
    let s = "just plain text; nothing to rewrite here, 123.";
    let t = transform(s, &per_comment());
    assert_eq!(t.text, s);
    assert!(t.deprecation.is_none());
}

#[test]
fn plain_text_unchanged_whole_file() {
    let s = "first line of text\n\nsecond paragraph, still plain\n";
    let t = transform(s, &whole_file());
    assert_eq!(t.text, s);
    assert!(t.deprecation.is_none());
}

#[test]
fn single_param_round_trip() {
    let t = transform("@param x the value", &per_comment());
    assert_eq!(t.text, "\n * `x` - the value");
    assert!(t.deprecation.is_none());
}

#[test]
fn param_with_annotation() {
    let t = transform("@param[in] cfg the config", &per_comment());
    assert_eq!(t.text, "\n * `cfg` [in] - the config");
}

#[test]
fn param_with_dotted_name() {
    let t = transform("@param opts.flags bit flags", &per_comment());
    assert_eq!(t.text, "\n * `opts.flags` - bit flags");
}

#[test]
fn params_keep_their_order() {
    let t = transform("@param a first\n@param b second\n", &per_comment());
    assert_eq!(t.text, "\n * `a` - first\n * `b` - second\n");
}

#[test]
fn malformed_param_is_left_alone() {
    // No identifier after the directive: the rule must not match.
    let t = transform("@param", &per_comment());
    assert_eq!(t.text, "@param");
}

#[test]
fn multiple_retval_aggregation() {
    let t = transform("@retval -1 Bad\n@retval 0 Ok", &per_comment());
    assert_eq!(t.text, "\n# Returns\n * -1 Bad\n\n * 0 Ok");
}

#[test]
fn retval_keeps_link_form() {
    let t = transform("@retval NRF_OK Success", &per_comment());
    assert_eq!(t.text, "\n# Returns\n * [NRF_OK] Success");
}

#[test]
fn cross_reference_non_duplication() {
    let t = transform(
        "see @ref NRF_MODEM_NOT_INITIALIZED and NRF_MODEM_NOT_INITIALIZED",
        &per_comment(),
    );
    assert_eq!(
        t.text,
        "see [NRF_MODEM_NOT_INITIALIZED] and [NRF_MODEM_NOT_INITIALIZED]"
    );
}

#[test]
fn ref_with_call_parens_and_period() {
    let t = transform("see @ref nrf_send().\n", &per_comment());
    assert_eq!(t.text, "see [nrf_send]\n");
}

#[test]
fn deprecation_extraction() {
    let t = transform("@deprecated Use foo instead.", &per_comment());
    assert_eq!(t.text, "");
    assert_eq!(t.deprecation.as_deref(), Some("Use foo instead"));
}

#[test]
fn deprecation_without_note() {
    let t = transform("@deprecated", &per_comment());
    assert_eq!(t.text, "");
    assert_eq!(t.deprecation.as_deref(), Some(""));
}

#[test]
fn deprecation_note_trimmed() {
    let t = transform("old. @deprecated Use bar instead .", &per_comment());
    assert_eq!(t.text, "old. ");
    assert_eq!(t.deprecation.as_deref(), Some("Use bar instead"));
}

#[test]
fn brief_promotes_summary() {
    let t = transform("@brief Does a thing.\nMore text.", &per_comment());
    assert_eq!(t.text, "Does a thing.\nMore text.");
}

#[test]
fn details_becomes_section() {
    let t = transform(" @details This is detail", &per_comment());
    assert_eq!(t.text, "\n# Details\nThis is detail");
}

#[test]
fn note_mid_sentence() {
    let t = transform("Call this. @note: only once, please", &per_comment());
    assert_eq!(t.text, "Call this.\n\n**Note:** only once, please");
}

#[test]
fn emphasis_becomes_code_span() {
    let t = transform("the @p value(s) thing", &per_comment());
    assert_eq!(t.text, "the `value(s)` thing");
}

#[test]
fn emphasis_before_symbol_is_absorbed() {
    let t = transform("check @c NRF_EINVAL first", &per_comment());
    assert_eq!(t.text, "check [NRF_EINVAL] first");
}

#[test]
fn hash_autolink_is_absorbed() {
    let t = transform("uses #NRF_SO_RAI here", &per_comment());
    assert_eq!(t.text, "uses [NRF_SO_RAI] here");
}

#[test]
fn name_becomes_heading() {
    let t = transform("@name Socket options", &per_comment());
    assert_eq!(t.text, "\n# Socket options");
}

#[test]
fn bare_return_fallback_heading() {
    let t = transform("@return", &per_comment());
    assert_eq!(t.text, "\n# Returns\n");
}

#[test]
fn returns_token_with_value() {
    let t = transform("@returns 0 on success", &per_comment());
    assert_eq!(t.text, "\n# Returns\n * 0 on success");
}

#[test]
fn return_value_may_stand_on_next_line() {
    // The whitespace after the directive may cross the line break.
    let t = transform("@return\nZero on success", &per_comment());
    assert_eq!(t.text, "\n# Returns\n * Zero on success");
}

#[test]
fn configured_prefixes_decide_promotion() {
    let mixed = Config {
        mode: Mode::PerComment,
        symbol_prefixes: vec![String::from("NRF_"), String::from("MODEM_")],
    };
    let t = transform("uses MODEM_DFU_RESULT here", &mixed);
    assert_eq!(t.text, "uses [MODEM_DFU_RESULT] here");
    // The same text with only the NRF_ prefix configured stays as it is.
    let t2 = transform("uses MODEM_DFU_RESULT here", &per_comment());
    assert_eq!(t2.text, "uses MODEM_DFU_RESULT here");
}

#[test]
fn unrecognized_directive_is_literal() {
    let t = transform("keeps @warning as it is", &per_comment());
    assert_eq!(t.text, "keeps @warning as it is");
}

#[test]
fn backslash_directives_recognized() {
    let t = transform("\\brief Sum.\n\\param n count\n", &per_comment());
    assert_eq!(t.text, "Sum.\n * `n` - count\n");
}

#[test]
fn empty_input_stays_empty() {
    let t = transform("", &per_comment());
    assert_eq!(t.text, "");
    assert!(t.deprecation.is_none());
    let t2 = transform("", &whole_file());
    assert_eq!(t2.text, "");
}

#[test]
fn bare_brief_leaves_nothing() {
    let t = transform("@brief", &per_comment());
    assert_eq!(t.text, "");
}

#[test]
fn whole_comment_combination() {
    let s = "@brief Send an AT command.\n@param[in] cmd the command\n@retval 0 Ok\n@retval -NRF_EFAULT Bad";
    let t = transform(s, &per_comment());
    assert_eq!(
        t.text,
        "Send an AT command.\n * `cmd` [in] - the command\n\n# Returns\n * 0 Ok\n\n * -[NRF_EFAULT] Bad"
    );
}

#[test]
fn mode_equivalence_on_isolated_comment() {
    let s = "Send data. @note check the @p flags and @ref nrf_send() first\n@retval 0 Ok";
    let a = transform(s, &per_comment());
    let b = transform(s, &whole_file());
    assert_eq!(a.text, b.text);
    assert_eq!(a.deprecation, b.deprecation);
}
