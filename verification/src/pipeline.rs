//! The entry points of a request: the input check and the routing
//! analysis that precede any spawned process.

use vstd::prelude::*;
use crate::args::{arg_views, spec_image_args, build_image_args};
use crate::pathname::{spec_extension, output_extension};
use crate::plan::{Group, spec_classify, classify_extension};

verus! {

/// The failure reported when the input file is missing.
pub open spec fn spec_missing_input() -> Seq<char> {
    "Input file not found"@
}

/// The entry of a video request. A missing input fails at once, before
/// anything is spawned; otherwise the output path's extension decides
/// the container group that the rest of the request follows.
pub fn start_video(input_exists: bool, output: &str) -> (r: Result<Group, String>)
    ensures
        !input_exists ==> (r matches Err(m) && m@ == spec_missing_input()),
        input_exists ==> r == Ok::<Group, String>(spec_classify(spec_extension(output@))),
{
    if !input_exists {
        return Err("Input file not found".to_owned());
    }
    let ext = output_extension(output);
    Ok(classify_extension(ext.as_str()))
}

/// The entry of an image request. A missing input fails at once, before
/// anything is spawned; otherwise the request becomes its full argument
/// list.
pub fn start_image(
    input_exists: bool,
    input: &str,
    output: &str,
    width: &str,
    height: &str,
) -> (r: Result<Vec<String>, String>)
    ensures
        !input_exists ==> (r matches Err(m) && m@ == spec_missing_input()),
        input_exists ==> (r matches Ok(v) && arg_views(v) == spec_image_args(
            input@,
            output@,
            width@,
            height@,
        )),
{
    if !input_exists {
        return Err("Input file not found".to_owned());
    }
    Ok(build_image_args(input, output, width, height))
}

} // verus!
