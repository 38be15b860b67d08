//! The command line of the external image tool.
//!
//! The order and spelling of the arguments are a compatibility contract with
//! the tool, so they are fixed here in one place.

use vstd::prelude::*;
use vstd::string::StringExecFns;

verus! {

/// The argument list the tool is started with: the input path, the
/// floating-point quantum directive, conversion to linear RGB, automatic
/// gamma, multiplication by the tuning parameter, a power curve of 0.9,
/// conversion to sRGB, sixteen bits of depth, the colour profile, and the
/// output path.
pub open spec fn argument_template(input: Seq<char>, tuning: Seq<char>, output: Seq<char>) -> Seq<
    Seq<char>,
> {
    seq![
        input,
        "-define"@,
        "quantum:format=floating-point"@,
        "-colorspace"@,
        "RGB"@,
        "-auto-gamma"@,
        "-evaluate"@,
        "Multiply"@,
        tuning,
        "-evaluate"@,
        "Pow"@,
        "0.9"@,
        "-colorspace"@,
        "sRGB"@,
        "-depth"@,
        "16"@,
        "-profile"@,
        "2020_profile.icc"@,
        output,
    ]
}

/// The tuning parameter as it is handed to the tool: the text of the parsed
/// number where the request carried one, and `1.5` where it carried none or
/// one that is no number.
pub open spec fn tuning_text(parsed: Option<Seq<char>>) -> Seq<char> {
    match parsed {
        Some(text) => text,
        None => "1.5"@,
    }
}

/// The name under which the image tool is looked up on the execution path.
pub fn tool_name() -> (name: &'static str)
    ensures
        name@ == "magick"@,
{
    "magick"
}

/// Picks the tuning argument. `parsed` is the number the request carried,
/// written out again, or `None` where the field was absent or not numeric.
pub fn tuning_argument(parsed: Option<String>) -> (tuning: String)
    ensures
        tuning@ == tuning_text(
            match parsed {
                Some(text) => Some(text@),
                None => None,
            },
        ),
{
    match parsed {
        Some(text) => text,
        None => String::from_str("1.5"),
    }
}

/// Builds the tool's argument list for one run.
pub fn tool_arguments(input: &str, tuning: &str, output: &str) -> (args: Vec<String>)
    ensures
        args.deep_view() == argument_template(input@, tuning@, output@),
{
    let mut args: Vec<String> = Vec::new();
    args.push(String::from_str(input));
    args.push(String::from_str("-define"));
    args.push(String::from_str("quantum:format=floating-point"));
    args.push(String::from_str("-colorspace"));
    args.push(String::from_str("RGB"));
    args.push(String::from_str("-auto-gamma"));
    args.push(String::from_str("-evaluate"));
    args.push(String::from_str("Multiply"));
    args.push(String::from_str(tuning));
    args.push(String::from_str("-evaluate"));
    args.push(String::from_str("Pow"));
    args.push(String::from_str("0.9"));
    args.push(String::from_str("-colorspace"));
    args.push(String::from_str("sRGB"));
    args.push(String::from_str("-depth"));
    args.push(String::from_str("16"));
    args.push(String::from_str("-profile"));
    args.push(String::from_str("2020_profile.icc"));
    args.push(String::from_str(output));
    assert(args.deep_view() =~= argument_template(input@, tuning@, output@));
    args
}

/// The tuning parameter reaches the tool verbatim, as the operand of the
/// multiplication, and the default is exactly `1.5`.
pub proof fn lemma_tuning_forwarded(input: Seq<char>, parsed: Option<Seq<char>>, output: Seq<char>)
    ensures
        argument_template(input, tuning_text(parsed), output)[7] == "Multiply"@,
        parsed is Some ==> argument_template(input, tuning_text(parsed), output)[8]
            == parsed->Some_0,
        parsed is None ==> argument_template(input, tuning_text(parsed), output)[8] == "1.5"@,
{
}

} // verus!
