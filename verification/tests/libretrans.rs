use libretrans::dispatch::choose_route;
use libretrans::dispatch::conclude;
use libretrans::dispatch::exit_code_for;
use libretrans::dispatch::plan_invocation;
use libretrans::dispatch::DispatchError;
use libretrans::dispatch::Outcome;
use libretrans::dispatch::Plan;
use libretrans::dispatch::Route;
use libretrans::lang::code_for;
use libretrans::lang::display_name;
use libretrans::lang::short_code;
use libretrans::lang::Lang;
use libretrans::lang::UnsupportedLanguage;
use libretrans::pair::parse;
use libretrans::pair::MalformedSpec;
use libretrans::pair::Origin;
use libretrans::pair::ParsedPair;
use libretrans::render::render;
use libretrans::render::Translation;
use libretrans::report::Report;

const ALL_CODES: [(&str, Lang); 10] = [
    ("en", Lang::English),
    ("ar", Lang::Arabic),
    ("zh", Lang::Chinese),
    ("fr", Lang::French),
    ("de", Lang::German),
    ("it", Lang::Italian),
    ("pt", Lang::Portuguese),
    ("ru", Lang::Russian),
    ("es", Lang::Spanish),
    ("ja", Lang::Japanese),
];

#[test]
fn short_codes_round_trip() {
    for (code, lang) in ALL_CODES {
        let looked_up = code_for(code).expect("supported code must be recognized");
        assert_eq!(looked_up, lang);
        assert_eq!(short_code(looked_up), code);
        assert_eq!(code_for(short_code(looked_up)), Ok(looked_up));
    }
}

#[test]
fn display_names_are_total() {
    assert_eq!(display_name(Lang::English), "English");
    assert_eq!(display_name(Lang::Arabic), "Arabic");
    assert_eq!(display_name(Lang::Chinese), "Chinese");
    assert_eq!(display_name(Lang::French), "French");
    assert_eq!(display_name(Lang::German), "German");
    assert_eq!(display_name(Lang::Italian), "Italian");
    assert_eq!(display_name(Lang::Portuguese), "Portuguese");
    assert_eq!(display_name(Lang::Russian), "Russian");
    assert_eq!(display_name(Lang::Spanish), "Spanish");
    assert_eq!(display_name(Lang::Japanese), "Japanese");
}

#[test]
fn unknown_codes_are_unsupported() {
    assert_eq!(code_for("xx"), Err(UnsupportedLanguage));
    assert_eq!(code_for("EN"), Err(UnsupportedLanguage));
    assert_eq!(code_for("e"), Err(UnsupportedLanguage));
    assert_eq!(code_for("eng"), Err(UnsupportedLanguage));
    assert_eq!(code_for(""), Err(UnsupportedLanguage));
}

#[test]
fn parse_full_pair() {
    assert_eq!(
        parse("en:fr"),
        Ok(ParsedPair { source: Origin::Known(Lang::English), target: Lang::French })
    );
}

#[test]
fn parse_detect_pair() {
    assert_eq!(parse(":fr"), Ok(ParsedPair { source: Origin::Detect, target: Lang::French }));
}

#[test]
fn parse_missing_separator() {
    assert_eq!(parse("en-fr"), Err(MalformedSpec::MissingSeparator));
}

#[test]
fn parse_unknown_code() {
    assert_eq!(parse("xx:fr"), Err(MalformedSpec::UnknownCode));
    assert_eq!(parse("en:yy"), Err(MalformedSpec::UnknownCode));
    assert_eq!(parse(":zz"), Err(MalformedSpec::UnknownCode));
}

#[test]
fn parse_wrong_length() {
    assert_eq!(parse("en:fr:de"), Err(MalformedSpec::WrongLength));
    assert_eq!(parse(""), Err(MalformedSpec::WrongLength));
    assert_eq!(parse("en"), Err(MalformedSpec::WrongLength));
    assert_eq!(parse("en:frx"), Err(MalformedSpec::WrongLength));
}

#[test]
fn parse_detect_needs_leading_colon() {
    assert_eq!(parse("x:f"), Err(MalformedSpec::WrongLength));
    assert_eq!(parse("fr:"), Err(MalformedSpec::WrongLength));
}

#[test]
fn parse_extra_colons_are_wrong_length() {
    assert_eq!(parse("e::fr"), Err(MalformedSpec::WrongLength));
    assert_eq!(parse("en:f:"), Err(MalformedSpec::WrongLength));
}

#[test]
fn parse_double_colon_detect_is_unknown() {
    assert_eq!(parse("::a"), Err(MalformedSpec::UnknownCode));
}

fn sample_translation() -> Translation {
    Translation {
        source: Lang::English,
        target: Lang::French,
        input: String::from("hi"),
        output: String::from("salut"),
    }
}

#[test]
fn render_terse_is_output_text() {
    assert_eq!(render(&sample_translation(), false), "salut");
}

#[test]
fn render_verbose_labels_both_lines() {
    let shown = render(&sample_translation(), true);
    assert_eq!(shown, "English: \"hi\"\nFrench: \"salut\"");
    let lines: Vec<&str> = shown.lines().collect();
    assert_eq!(lines.len(), 2);
    assert!(lines[0].contains("English") && lines[0].contains("hi"));
    assert!(lines[1].contains("French") && lines[1].contains("salut"));
}

#[test]
fn report_text_is_exact() {
    let rep = Report {
        headline: String::from("Unknown languages"),
        detail: String::from("Possible values: [\"en\"]"),
        detail_is_hint: true,
    };
    assert_eq!(
        rep.text(false),
        "error: Unknown languages\n    Possible values: [\"en\"]\n\n\nTip: You can format languages like \":<OUTPUT>\" to detect the input language.\n\nUSAGE:\n    libretrans [FLAGS] <INPUT>:<OUTPUT> <TEXT>\n\nFor more information try --help\n"
    );
    assert_ne!(rep.exit_code(), 0);
}

#[test]
fn report_text_verbose_usage_line() {
    let rep = Report {
        headline: String::from("Translation error:"),
        detail: String::from("could not reach host"),
        detail_is_hint: false,
    };
    let shown = rep.text(true);
    assert!(shown.starts_with("error: Translation error:\n"));
    assert!(shown.contains("\ncould not reach host\n"));
    assert!(shown.contains("USAGE:\n    libretrans <INPUT>:<OUTPUT> <TEXT> --verbose\n"));
    assert!(shown.ends_with("For more information try --help\n"));
}

#[test]
fn empty_text_short_circuits() {
    // Even a hopeless specifier is never looked at when the text is empty.
    match plan_invocation("not a spec at all", "", Some(String::from("http://x/"))) {
        Plan::SilentExit => {}
        _ => panic!("empty input text must exit silently"),
    }
}

#[test]
fn plan_builds_request() {
    match plan_invocation("en:fr", "hello", None) {
        Plan::Call(req) => {
            assert_eq!(req.source, Origin::Known(Lang::English));
            assert_eq!(req.target, Lang::French);
            assert_eq!(req.text, "hello");
            assert_eq!(req.endpoint, None);
        }
        _ => panic!("a valid specifier and text must become a backend call"),
    }
}

#[test]
fn plan_rejects_bad_spec() {
    match plan_invocation("en-fr", "hello", None) {
        Plan::Reject(rep) => {
            assert_eq!(rep.headline, "Malformed language argument: not separated by an ':'");
            assert_eq!(
                rep.detail,
                "Possible values: [\"en\", \"ar\", \"zh\", \"fr\", \"de\", \"it\", \"pt\", \"ru\", \"es\", \"ja\"]"
            );
            assert!(rep.detail_is_hint);
        }
        _ => panic!("a malformed specifier must be rejected"),
    }
}

/// A stand-in for the backend: records which call path a route selects
/// and answers like a backend that echoes its endpoint.
fn backend_double(route: &Route) -> (&'static str, String) {
    match route {
        Route::DefaultEndpoint => ("default", String::from("https://libretranslate.com/")),
        Route::Custom(url) => ("custom", url.clone()),
    }
}

#[test]
fn endpoint_overrides_route() {
    let endpoint = Some(String::from("https://my.instance/"));
    match plan_invocation("en:fr", "hello", endpoint) {
        Plan::Call(req) => {
            let route = choose_route(&req.endpoint);
            let (path, url) = backend_double(&route);
            assert_eq!(path, "custom");
            assert_eq!(url, "https://my.instance/");
        }
        _ => panic!("a valid specifier and text must become a backend call"),
    }
}

#[test]
fn absent_endpoint_routes_default() {
    match plan_invocation("en:fr", "hello", None) {
        Plan::Call(req) => {
            let (path, _) = backend_double(&choose_route(&req.endpoint));
            assert_eq!(path, "default");
        }
        _ => panic!("a valid specifier and text must become a backend call"),
    }
}

#[test]
fn success_outcome_renders() {
    match conclude(Ok(sample_translation()), false) {
        Outcome::Success(shown) => assert_eq!(shown, "salut"),
        _ => panic!("a backend success must render"),
    }
}

#[test]
fn backend_failure_relays_message() {
    let failure = DispatchError { message: String::from("upstream said no: 503") };
    let outcome = conclude(Err(failure), false);
    assert_ne!(exit_code_for(&outcome), 0);
    match outcome {
        Outcome::Failure(rep) => {
            assert_eq!(rep.headline, "Translation error:");
            assert!(rep.text(false).contains("upstream said no: 503"));
            assert_ne!(rep.exit_code(), 0);
        }
        _ => panic!("a backend failure must fail the invocation"),
    }
}
