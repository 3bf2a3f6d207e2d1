//! The operation compiler: one operation kind with its parameters becomes the
//! argument list of one transcoder run.

use vstd::prelude::*;
use vstd::string::StrSliceExecFns;
use crate::number::{Decimal, number_text, difference_text, render, subtract_text, free_of_p, lemma_number_text_shape, difference_numerator, difference_scale};
use crate::params::{Param, lookup, number_of, integer_of, text_of, number_or, integer_or, text_or};

verus! {

/// The operation kinds that the compiler knows.
#[derive(Clone, Copy, Debug, PartialEq, Eq)]
pub enum OperationKind {
    BrightnessAdjust,
    SpeedAdjust,
    Trim,
    Crop,
    TextOverlay,
    StyleFilter,
}

/// Why an operation, or a batch of them, did not produce an output.
#[derive(Clone, Debug)]
pub enum ProcessError {
    /// The operation kind is not one the compiler knows; carries the kind's name.
    UnsupportedOperation(String),
    /// The transcoder reported failure; carries its diagnostic text.
    TranscodeFailed(String),
    /// No fresh output path could be had; carries the path that was refused.
    ResourceAllocationFailed(String),
}

impl ProcessError {
    /// The message reported to the caller.
    pub fn message(&self) -> (r: String)
        ensures
            r@ == self.message_spec(),
    {
        match self {
            ProcessError::UnsupportedOperation(k) => String::from_str("Unsupported operation: ").concat(k.as_str()),
            ProcessError::TranscodeFailed(e) => String::from_str("FFmpeg failed: ").concat(e.as_str()),
            ProcessError::ResourceAllocationFailed(p) => String::from_str("Could not allocate output path: ").concat(p.as_str()),
        }
    }

    pub open spec fn message_spec(&self) -> Seq<char> {
        match self {
            ProcessError::UnsupportedOperation(k) => "Unsupported operation: "@ + k@,
            ProcessError::TranscodeFailed(e) => "FFmpeg failed: "@ + e@,
            ProcessError::ResourceAllocationFailed(p) => "Could not allocate output path: "@ + p@,
        }
    }
}

/// The kind that an operation name denotes.
pub open spec fn kind_of(name: Seq<char>) -> Option<OperationKind> {
    if name == "adjustBrightness"@ {
        Some(OperationKind::BrightnessAdjust)
    } else if name == "adjustSpeed"@ {
        Some(OperationKind::SpeedAdjust)
    } else if name == "trimVideo"@ {
        Some(OperationKind::Trim)
    } else if name == "cropVideo"@ {
        Some(OperationKind::Crop)
    } else if name == "addText"@ {
        Some(OperationKind::TextOverlay)
    } else if name == "applyFilter"@ {
        Some(OperationKind::StyleFilter)
    } else {
        None
    }
}

fn is(name: &String, lit: &str) -> (r: bool)
    ensures
        r == (name@ == lit@),
{
    *name == String::from_str(lit)
}

impl OperationKind {
    /// The kind named `name`, if the compiler knows it.
    pub fn from_name(name: &String) -> (r: Option<OperationKind>)
        ensures
            r == kind_of(name@),
    {
        if is(name, "adjustBrightness") {
            Some(OperationKind::BrightnessAdjust)
        } else if is(name, "adjustSpeed") {
            Some(OperationKind::SpeedAdjust)
        } else if is(name, "trimVideo") {
            Some(OperationKind::Trim)
        } else if is(name, "cropVideo") {
            Some(OperationKind::Crop)
        } else if is(name, "addText") {
            Some(OperationKind::TextOverlay)
        } else if is(name, "applyFilter") {
            Some(OperationKind::StyleFilter)
        } else {
            None
        }
    }
}

pub open spec fn zero() -> Decimal {
    Decimal { negative: false, magnitude: 0, scale: 0 }
}

pub open spec fn one() -> Decimal {
    Decimal { negative: false, magnitude: 1, scale: 0 }
}

pub open spec fn number_or_spec(p: Seq<Param>, key: Seq<char>, default: Decimal) -> Decimal {
    match number_of(lookup(p, key)) {
        Some(d) => d,
        None => default,
    }
}

pub open spec fn integer_or_spec(p: Seq<Param>, key: Seq<char>, default: i64) -> i64 {
    match integer_of(lookup(p, key)) {
        Some(i) => i,
        None => default,
    }
}

pub open spec fn text_or_spec(p: Seq<Param>, key: Seq<char>, default: Seq<char>) -> Seq<char> {
    match text_of(lookup(p, key)) {
        Some(t) => t,
        None => default,
    }
}

pub open spec fn decimal_text(d: Decimal) -> Seq<char> {
    number_text(d.numerator(), d.scale as nat)
}

pub open spec fn integer_text(i: i64) -> Seq<char> {
    number_text(i as int, 0)
}

/// The brightness filter: the parameter scaled by one hundredth.
pub open spec fn brightness_filter(p: Seq<Param>) -> Seq<char> {
    let b = number_or_spec(p, "brightness"@, zero());
    "eq=brightness="@ + number_text(b.numerator(), (b.scale + 2) as nat)
}

/// Vertical placement of overlay text.
pub open spec fn text_row(position: Seq<char>) -> Seq<char> {
    if position == "top"@ {
        "50"@
    } else if position == "bottom"@ {
        "h-th-50"@
    } else {
        "(h-th)/2"@
    }
}

/// Overlay text made safe inside a single-quoted filter argument: each quote
/// closes the quoting, stands escaped, and reopens it.
pub open spec fn quoted_text(s: Seq<char>) -> Seq<char>
    decreases s.len(),
{
    if s.len() == 0 {
        Seq::empty()
    } else if s.last() == '\'' {
        quoted_text(s.drop_last()) + "'\\''"@
    } else {
        quoted_text(s.drop_last()) + seq![s.last()]
    }
}

/// The text of `s` escaped for use between single quotes of a filter.
pub fn quote_text(s: &String) -> (r: String)
    ensures
        r@ == quoted_text(s@),
{
    let text = s.as_str();
    let n = text.unicode_len();
    let mut out = String::new();
    let mut cut: usize = 0;
    let mut i: usize = 0;
    while i < n
        invariant
            n == s@.len(),
            text@ == s@,
            cut <= i <= n,
            out@ + s@.subrange(cut as int, i as int) == quoted_text(s@.take(i as int)),
        decreases n - i,
    {
        let c = text.get_char(i);
        assert(s@.take(i + 1).drop_last() =~= s@.take(i as int));
        if c == '\'' {
            let run = text.substring_char(cut, i);
            out = out.concat(run).concat("'\\''");
            cut = i + 1;
            assert(s@.subrange(cut as int, i + 1) =~= Seq::<char>::empty());
        } else {
            assert(s@.subrange(cut as int, i + 1) =~= s@.subrange(cut as int, i as int) + seq![c]);
        }
        i = i + 1;
    }
    assert(s@.take(n as int) =~= s@);
    let rest = text.substring_char(cut, n);
    out.concat(rest)
}

pub open spec fn text_filter(p: Seq<Param>) -> Seq<char> {
    "drawtext=text='"@ + quoted_text(text_or_spec(p, "text"@, "Sample Text"@))
        + "':fontcolor=white:fontsize=24:x=(w-tw)/2:y="@
        + text_row(text_or_spec(p, "position"@, "center"@))
}

pub open spec fn crop_filter(p: Seq<Param>) -> Seq<char> {
    "crop="@ + integer_text(integer_or_spec(p, "width"@, 1920)) + ":"@
        + integer_text(integer_or_spec(p, "height"@, 1080)) + ":"@
        + integer_text(integer_or_spec(p, "x"@, 0)) + ":"@
        + integer_text(integer_or_spec(p, "y"@, 0))
}

pub open spec fn cinematic_preset() -> Seq<char> {
    "eq=contrast=1.2:brightness=0.1:saturation=1.1,curves=all='0/0 0.5/0.58 1/1'"@
}

pub open spec fn vintage_preset() -> Seq<char> {
    "eq=contrast=0.9:brightness=0.05:saturation=0.8,colorchannelmixer=.393:.769:.189:0:.349:.686:.168:0:.272:.534:.131"@
}

pub open spec fn fallback_preset() -> Seq<char> {
    "eq=contrast=1.1:brightness=0.05"@
}

pub open spec fn style_preset(name: Seq<char>) -> Seq<char> {
    if name == "cinematic"@ {
        cinematic_preset()
    } else if name == "vintage"@ {
        vintage_preset()
    } else {
        fallback_preset()
    }
}

/// The arguments that a kind contributes between the input and the output.
pub open spec fn step_args(kind: OperationKind, p: Seq<Param>) -> Seq<Seq<char>> {
    match kind {
        OperationKind::BrightnessAdjust => seq!["-vf"@, brightness_filter(p)],
        OperationKind::SpeedAdjust => {
            let speed = decimal_text(number_or_spec(p, "speed"@, one()));
            seq!["-vf"@, "setpts=PTS/"@ + speed, "-af"@, "atempo="@ + speed]
        },
        OperationKind::Trim => {
            let start = number_or_spec(p, "startTime"@, zero());
            let head = seq!["-ss"@, decimal_text(start)];
            match number_of(lookup(p, "endTime"@)) {
                Some(end) => head + seq!["-t"@, difference_text(end, start)],
                None => head,
            }
        },
        OperationKind::Crop => seq!["-vf"@, crop_filter(p)],
        OperationKind::TextOverlay => seq!["-vf"@, text_filter(p)],
        OperationKind::StyleFilter => seq!["-vf"@, style_preset(text_or_spec(p, "filter"@, "cinematic"@))],
    }
}

/// The whole argument list: the input, the kind's arguments, then the output
/// with overwriting allowed.
pub open spec fn invocation_args(input: Seq<char>, kind: OperationKind, p: Seq<Param>, output: Seq<char>) -> Seq<Seq<char>> {
    seq!["-i"@, input] + step_args(kind, p) + seq!["-y"@, output]
}

/// What compiling `name` with `p` yields: the argument list, or `None` for an
/// unknown kind.
pub open spec fn compile_spec(input: Seq<char>, name: Seq<char>, p: Seq<Param>, output: Seq<char>) -> Option<Seq<Seq<char>>> {
    match kind_of(name) {
        Some(k) => Some(invocation_args(input, k, p, output)),
        None => None,
    }
}

fn lit(s: &str) -> (r: String)
    ensures
        r@ == s@,
{
    String::from_str(s)
}

fn pair(a: &str, b: String) -> (r: Vec<String>)
    ensures
        r.deep_view() == seq![a@, b@],
{
    let mut v: Vec<String> = Vec::new();
    v.push(lit(a));
    v.push(b);
    assert(v.deep_view() =~= seq![a@, b@]);
    v
}

fn joined(a: Vec<String>, b: Vec<String>) -> (r: Vec<String>)
    ensures
        r.deep_view() == a.deep_view() + b.deep_view(),
{
    let mut v = a;
    let mut w = b;
    v.append(&mut w);
    assert(v.deep_view() =~= a.deep_view() + b.deep_view());
    v
}

fn decimal_string(d: Decimal) -> (r: String)
    requires
        d.readable(),
    ensures
        r@ == decimal_text(d),
{
    d.to_text()
}

fn integer_string(i: i64) -> (r: String)
    ensures
        r@ == integer_text(i),
{
    Decimal::from_integer(i).to_text()
}

/// The arguments that `kind` contributes, with parameters resolved from `p`.
pub fn kind_args(kind: OperationKind, p: &Vec<Param>) -> (r: Vec<String>)
    ensures
        r.deep_view() == step_args(kind, p@),
{
    let zero_d = Decimal { negative: false, magnitude: 0, scale: 0 };
    let one_d = Decimal { negative: false, magnitude: 1, scale: 0 };
    match kind {
        OperationKind::BrightnessAdjust => {
            let b = number_or(p, &lit("brightness"), zero_d);
            let f = lit("eq=brightness=").concat(render(b.negative, b.magnitude as u128, b.scale + 2).as_str());
            pair("-vf", f)
        },
        OperationKind::SpeedAdjust => {
            let s = number_or(p, &lit("speed"), one_d);
            let t = decimal_string(s);
            let v = joined(pair("-vf", lit("setpts=PTS/").concat(t.as_str())), pair("-af", lit("atempo=").concat(t.as_str())));
            assert(v.deep_view() =~= step_args(kind, p@));
            v
        },
        OperationKind::Trim => {
            let start = number_or(p, &lit("startTime"), zero_d);
            let head = pair("-ss", decimal_string(start));
            match number_param_end(p) {
                Some(end) => joined(head, pair("-t", subtract_text(end, start))),
                None => head,
            }
        },
        OperationKind::Crop => {
            let f = lit("crop=").concat(integer_string(integer_or(p, &lit("width"), 1920)).as_str())
                .concat(":").concat(integer_string(integer_or(p, &lit("height"), 1080)).as_str())
                .concat(":").concat(integer_string(integer_or(p, &lit("x"), 0)).as_str())
                .concat(":").concat(integer_string(integer_or(p, &lit("y"), 0)).as_str());
            pair("-vf", f)
        },
        OperationKind::TextOverlay => {
            let text = text_or(p, &lit("text"), "Sample Text");
            let position = text_or(p, &lit("position"), "center");
            let row = if is(&position, "top") {
                "50"
            } else if is(&position, "bottom") {
                "h-th-50"
            } else {
                "(h-th)/2"
            };
            let f = lit("drawtext=text='").concat(quote_text(&text).as_str())
                .concat("':fontcolor=white:fontsize=24:x=(w-tw)/2:y=").concat(row);
            pair("-vf", f)
        },
        OperationKind::StyleFilter => {
            let name = text_or(p, &lit("filter"), "cinematic");
            let preset = if is(&name, "cinematic") {
                "eq=contrast=1.2:brightness=0.1:saturation=1.1,curves=all='0/0 0.5/0.58 1/1'"
            } else if is(&name, "vintage") {
                "eq=contrast=0.9:brightness=0.05:saturation=0.8,colorchannelmixer=.393:.769:.189:0:.349:.686:.168:0:.272:.534:.131"
            } else {
                "eq=contrast=1.1:brightness=0.05"
            };
            pair("-vf", lit(preset))
        },
    }
}

fn number_param_end(p: &Vec<Param>) -> (r: Option<Decimal>)
    ensures
        r == number_of(lookup(p@, "endTime"@)),
{
    crate::params::number_param(p, &lit("endTime"))
}

/// Compiles the operation `name` with parameters `p` into the arguments of one
/// transcoder run that reads `input` and writes `output`. An unknown kind fails
/// with `UnsupportedOperation` carrying the name.
pub fn compile_operation(input: &String, name: &String, p: &Vec<Param>, output: &String) -> (r: Result<Vec<String>, ProcessError>)
    ensures
        match r {
            Ok(args) => compile_spec(input@, name@, p@, output@) == Some(args.deep_view()),
            Err(e) => compile_spec(input@, name@, p@, output@) is None
                && (e matches ProcessError::UnsupportedOperation(k) && k@ == name@),
        },
{
    match OperationKind::from_name(name) {
        Some(kind) => {
            let args = joined(joined(pair("-i", input.clone()), kind_args(kind, p)), pair("-y", output.clone()));
            assert(args.deep_view() =~= invocation_args(input@, kind, p@, output@));
            Ok(args)
        },
        None => Err(ProcessError::UnsupportedOperation(name.clone())),
    }
}

/// `x` cannot be a path whose next-to-last character is `p` (as in `.mp4`).
pub open spec fn unlike_output(x: Seq<char>) -> bool {
    x.len() < 2 || x[x.len() - 2] != 'p'
}

proof fn lemma_ends_in_number(head: Seq<char>, value: int, scale: nat)
    requires
        head.len() >= 1,
        head.last() != 'p',
    ensures
        unlike_output(head + number_text(value, scale)),
{
    lemma_number_text_shape(value, scale);
    let t = number_text(value, scale);
    let x = head + t;
    if t.len() >= 2 {
        assert(x[x.len() - 2] == t[t.len() - 2]);
    } else {
        assert(x[x.len() - 2] == head.last());
    }
}

proof fn lemma_step_args_unlike_output(kind: OperationKind, p: Seq<Param>)
    ensures
        forall|i: int| 0 <= i < step_args(kind, p).len() ==> unlike_output(#[trigger] step_args(kind, p)[i]),
{
    reveal_strlit("-vf");
    reveal_strlit("-af");
    reveal_strlit("-ss");
    reveal_strlit("-t");
    reveal_strlit("eq=brightness=");
    reveal_strlit("setpts=PTS/");
    reveal_strlit("atempo=");
    reveal_strlit(":");
    reveal_strlit("50");
    reveal_strlit("h-th-50");
    reveal_strlit("(h-th)/2");
    reveal_strlit("eq=contrast=1.2:brightness=0.1:saturation=1.1,curves=all='0/0 0.5/0.58 1/1'");
    reveal_strlit("eq=contrast=0.9:brightness=0.05:saturation=0.8,colorchannelmixer=.393:.769:.189:0:.349:.686:.168:0:.272:.534:.131");
    reveal_strlit("eq=contrast=1.1:brightness=0.05");
    match kind {
        OperationKind::BrightnessAdjust => {
            let b = number_or_spec(p, "brightness"@, zero());
            lemma_ends_in_number("eq=brightness="@, b.numerator(), (b.scale + 2) as nat);
        },
        OperationKind::SpeedAdjust => {
            let d = number_or_spec(p, "speed"@, one());
            lemma_ends_in_number("setpts=PTS/"@, d.numerator(), d.scale as nat);
            lemma_ends_in_number("atempo="@, d.numerator(), d.scale as nat);
        },
        OperationKind::Trim => {
            let start = number_or_spec(p, "startTime"@, zero());
            lemma_number_text_shape(start.numerator(), start.scale as nat);
            let t = decimal_text(start);
            if t.len() >= 2 {
                assert(t[t.len() - 2] != 'p');
            }
            match number_of(lookup(p, "endTime"@)) {
                Some(end) => {
                    lemma_number_text_shape(difference_numerator(end, start), difference_scale(end, start));
                    let u = difference_text(end, start);
                    if u.len() >= 2 {
                        assert(u[u.len() - 2] != 'p');
                    }
                },
                None => {},
            }
        },
        OperationKind::Crop => {
            let head = "crop="@ + integer_text(integer_or_spec(p, "width"@, 1920)) + ":"@
                + integer_text(integer_or_spec(p, "height"@, 1080)) + ":"@
                + integer_text(integer_or_spec(p, "x"@, 0)) + ":"@;
            assert(head.last() == ':');
            lemma_ends_in_number(head, integer_or_spec(p, "y"@, 0) as int, 0);
            assert(crop_filter(p) == head + integer_text(integer_or_spec(p, "y"@, 0)));
        },
        OperationKind::TextOverlay => {
            let row = text_row(text_or_spec(p, "position"@, "center"@));
            let x = text_filter(p);
            assert(x[x.len() - 2] == row[row.len() - 2]);
        },
        OperationKind::StyleFilter => {
            let x = style_preset(text_or_spec(p, "filter"@, "cinematic"@));
            assert(x[x.len() - 2] != 'p');
        },
    }
}

/// The compiled argument list names the output exactly once, as its last
/// argument, and reads the input as given, for an output path whose
/// next-to-last character is `p` (an `.mp4` path) and differs from the input.
pub proof fn output_named_exactly_once(input: Seq<char>, kind: OperationKind, p: Seq<Param>, output: Seq<char>)
    requires
        output.len() >= 2,
        output[output.len() - 2] == 'p',
        input != output,
    ensures
        invocation_args(input, kind, p, output).last() == output,
        invocation_args(input, kind, p, output)[1] == input,
        forall|i: int| 0 <= i < invocation_args(input, kind, p, output).len() - 1
            ==> #[trigger] invocation_args(input, kind, p, output)[i] != output,
{
    reveal_strlit("-i");
    reveal_strlit("-y");
    lemma_step_args_unlike_output(kind, p);
    let a = invocation_args(input, kind, p, output);
    let body = step_args(kind, p);
    assert forall|i: int| 0 <= i < a.len() - 1 implies #[trigger] a[i] != output by {
        if i == 0 {
            assert(a[i] == "-i"@);
        } else if i == 1 {
            assert(a[i] == input);
        } else if i < 2 + body.len() {
            assert(a[i] == body[i - 2]);
            assert(unlike_output(body[i - 2]));
        } else {
            assert(a[i] == "-y"@);
        }
    }
}

} // verus!
