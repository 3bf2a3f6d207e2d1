use video_processor::compile::{compile_operation, OperationKind, ProcessError};
use video_processor::number::{render, subtract_text, Decimal};
use video_processor::params::{Param, ParamValue};

fn param(key: &str, value: ParamValue) -> Param {
    Param { key: key.to_string(), value }
}

fn compile(name: &str, params: Vec<Param>) -> Vec<String> {
    match compile_operation(&"in.mp4".to_string(), &name.to_string(), &params, &"out.mp4".to_string()) {
        Ok(args) => args,
        Err(e) => panic!("unexpected error: {}", e.message()),
    }
}

fn expect(name: &str, params: Vec<Param>, body: &[&str]) {
    let mut want: Vec<String> = vec!["-i".to_string(), "in.mp4".to_string()];
    want.extend(body.iter().map(|s| s.to_string()));
    want.push("-y".to_string());
    want.push("out.mp4".to_string());
    assert_eq!(compile(name, params), want);
}

#[test]
fn brightness_fifty_scales_by_half() {
    expect("adjustBrightness", vec![param("brightness", ParamValue::Integer(50))], &["-vf", "eq=brightness=0.5"]);
}

#[test]
fn brightness_defaults_to_zero() {
    expect("adjustBrightness", vec![], &["-vf", "eq=brightness=0"]);
}

#[test]
fn brightness_of_wrong_type_defaults_to_zero() {
    expect("adjustBrightness", vec![param("brightness", ParamValue::Text("high".to_string()))], &["-vf", "eq=brightness=0"]);
}

#[test]
fn brightness_negative_fraction() {
    let d = Decimal { negative: true, magnitude: 125, scale: 1 };
    expect("adjustBrightness", vec![param("brightness", ParamValue::Fraction(d))], &["-vf", "eq=brightness=-0.125"]);
}

#[test]
fn speed_two() {
    expect("adjustSpeed", vec![param("speed", ParamValue::Integer(2))], &["-vf", "setpts=PTS/2", "-af", "atempo=2"]);
}

#[test]
fn speed_half_and_default() {
    let d = Decimal { negative: false, magnitude: 50, scale: 2 };
    expect("adjustSpeed", vec![param("speed", ParamValue::Fraction(d))], &["-vf", "setpts=PTS/0.5", "-af", "atempo=0.5"]);
    expect("adjustSpeed", vec![], &["-vf", "setpts=PTS/1", "-af", "atempo=1"]);
}

#[test]
fn trim_with_end_limits_duration() {
    expect(
        "trimVideo",
        vec![param("startTime", ParamValue::Integer(5)), param("endTime", ParamValue::Integer(15))],
        &["-ss", "5", "-t", "10"],
    );
}

#[test]
fn trim_without_end_is_open_ended() {
    expect("trimVideo", vec![param("startTime", ParamValue::Integer(5))], &["-ss", "5"]);
}

#[test]
fn trim_with_fractional_bounds() {
    let start = Decimal { negative: false, magnitude: 25, scale: 1 };
    let end = Decimal { negative: false, magnitude: 1075, scale: 2 };
    expect(
        "trimVideo",
        vec![param("startTime", ParamValue::Fraction(start)), param("endTime", ParamValue::Fraction(end))],
        &["-ss", "2.5", "-t", "8.25"],
    );
}

#[test]
fn crop_defaults_and_values() {
    expect("cropVideo", vec![], &["-vf", "crop=1920:1080:0:0"]);
    expect(
        "cropVideo",
        vec![
            param("x", ParamValue::Integer(-10)),
            param("y", ParamValue::Integer(20)),
            param("width", ParamValue::Integer(640)),
            param("height", ParamValue::Integer(480)),
        ],
        &["-vf", "crop=640:480:-10:20"],
    );
}

#[test]
fn crop_ignores_fractional_width() {
    let d = Decimal { negative: false, magnitude: 6405, scale: 1 };
    expect("cropVideo", vec![param("width", ParamValue::Fraction(d))], &["-vf", "crop=1920:1080:0:0"]);
}

#[test]
fn text_overlay_positions() {
    expect(
        "addText",
        vec![param("text", ParamValue::Text("Hi".to_string())), param("position", ParamValue::Text("top".to_string()))],
        &["-vf", "drawtext=text='Hi':fontcolor=white:fontsize=24:x=(w-tw)/2:y=50"],
    );
    expect(
        "addText",
        vec![param("position", ParamValue::Text("bottom".to_string()))],
        &["-vf", "drawtext=text='Sample Text':fontcolor=white:fontsize=24:x=(w-tw)/2:y=h-th-50"],
    );
    expect("addText", vec![], &["-vf", "drawtext=text='Sample Text':fontcolor=white:fontsize=24:x=(w-tw)/2:y=(h-th)/2"]);
}

#[test]
fn style_presets() {
    expect("applyFilter", vec![], &["-vf", "eq=contrast=1.2:brightness=0.1:saturation=1.1,curves=all='0/0 0.5/0.58 1/1'"]);
    expect(
        "applyFilter",
        vec![param("filter", ParamValue::Text("vintage".to_string()))],
        &["-vf", "eq=contrast=0.9:brightness=0.05:saturation=0.8,colorchannelmixer=.393:.769:.189:0:.349:.686:.168:0:.272:.534:.131"],
    );
    expect("applyFilter", vec![param("filter", ParamValue::Text("noir".to_string()))], &["-vf", "eq=contrast=1.1:brightness=0.05"]);
}

#[test]
fn first_entry_of_a_key_wins() {
    expect(
        "adjustBrightness",
        vec![param("brightness", ParamValue::Integer(20)), param("brightness", ParamValue::Integer(70))],
        &["-vf", "eq=brightness=0.2"],
    );
}

#[test]
fn unknown_kind_is_unsupported() {
    let r = compile_operation(&"in.mp4".to_string(), &"blur".to_string(), &vec![], &"out.mp4".to_string());
    match r {
        Err(ProcessError::UnsupportedOperation(k)) => assert_eq!(k, "blur"),
        _ => panic!("expected an unsupported operation"),
    }
    let e = ProcessError::UnsupportedOperation("blur".to_string());
    assert_eq!(e.message(), "Unsupported operation: blur");
}

#[test]
fn kind_names() {
    assert_eq!(OperationKind::from_name(&"trimVideo".to_string()), Some(OperationKind::Trim));
    assert_eq!(OperationKind::from_name(&"trim".to_string()), None);
}

#[test]
fn number_rendering() {
    assert_eq!(render(false, 1500, 3), "1.5");
    assert_eq!(render(true, 0, 2), "0");
    assert_eq!(render(false, 7, 3), "0.007");
    assert_eq!(render(true, 120, 0), "-120");
    assert_eq!(Decimal::from_integer(i64::MIN).to_text(), "-9223372036854775808");
}

#[test]
fn exact_differences() {
    let a = Decimal { negative: false, magnitude: 3, scale: 0 };
    let b = Decimal { negative: false, magnitude: 55, scale: 1 };
    assert_eq!(subtract_text(a, b), "-2.5");
    let c = Decimal { negative: true, magnitude: 1, scale: 0 };
    assert_eq!(subtract_text(a, c), "4");
    assert_eq!(subtract_text(c, a), "-4");
}

#[test]
fn overlay_text_quotes_are_escaped() {
    expect(
        "addText",
        vec![param("text", ParamValue::Text("it's".to_string()))],
        &["-vf", "drawtext=text='it'\\''s':fontcolor=white:fontsize=24:x=(w-tw)/2:y=(h-th)/2"],
    );
    assert_eq!(video_processor::compile::quote_text(&"a'b'".to_string()), "a'\\''b'\\''");
    assert_eq!(video_processor::compile::quote_text(&String::new()), "");
}

#[test]
fn crop_reads_whole_fractions() {
    let hundred = Decimal { negative: false, magnitude: 1000, scale: 1 };
    let minus_two = Decimal { negative: true, magnitude: 200, scale: 2 };
    expect(
        "cropVideo",
        vec![param("x", ParamValue::Fraction(hundred)), param("y", ParamValue::Fraction(minus_two))],
        &["-vf", "crop=1920:1080:100:-2"],
    );
}

#[test]
fn whole_values_of_decimals() {
    assert_eq!(Decimal { negative: false, magnitude: 1000, scale: 1 }.whole(), Some(100));
    assert_eq!(Decimal { negative: false, magnitude: 1005, scale: 1 }.whole(), None);
    assert_eq!(Decimal { negative: true, magnitude: 9223372036854775808, scale: 0 }.whole(), Some(i64::MIN));
    assert_eq!(Decimal { negative: false, magnitude: 9223372036854775808, scale: 0 }.whole(), None);
    assert_eq!(Decimal { negative: false, magnitude: 0, scale: 18 }.whole(), Some(0));
}
