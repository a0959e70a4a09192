//! Grading: who graded, and what is sent to the cloud to be graded.

use vstd::prelude::*;
use crate::commands::execution::{image_of, unsupported};
use crate::error::ShellError;
use crate::features::FeatureFlags;
use crate::text::lowercase;

verus! {

/// Where a grade comes from.
#[derive(Debug, Clone, Copy, PartialEq, Eq, Structural)]
pub enum GradingSource {
    Local,
    Cloud,
}

/// One file of a project that is handed in.
#[derive(Debug, Clone)]
pub struct ProjectFile {
    pub path: String,
    pub content: String,
}

/// What is sent to the cloud to be graded.
#[derive(Debug, Clone)]
pub struct CloudGradingRequest {
    pub lesson_id: String,
    pub code: String,
    pub language: String,
    pub project_files: Vec<ProjectFile>,
}

/// The text of the refusal of a cloud grading, with or without a license.
pub open spec fn cloud_refusal(licensed: bool) -> Seq<char> {
    if licensed {
        "Cloud grading service not yet implemented. Local testing is available."@
    } else {
        "Cloud grading requires a teacher license. Your code was tested locally only."@
    }
}

/// Answers a request for cloud grading. There is no grading service yet, so
/// the answer is always a refusal: for want of a license where cloud grading
/// is switched off, for want of the service where it is on.
pub fn submit_for_grading(request: &CloudGradingRequest, flags: &FeatureFlags) -> (error:
    ShellError)
    ensures
        error matches ShellError::CloudRequired(text) && text@ == cloud_refusal(
            flags.cloud_grading,
        ),
{
    if !flags.cloud_grading {
        return ShellError::CloudRequired(
            "Cloud grading requires a teacher license. Your code was tested locally only.".to_owned(),
        );
    }
    ShellError::CloudRequired(
        "Cloud grading service not yet implemented. Local testing is available.".to_owned(),
    )
}

/// The places of the tests that are not hidden, in the order of the list.
pub open spec fn visible(hidden: Seq<bool>) -> Seq<int>
    decreases hidden.len(),
{
    if hidden.len() == 0 {
        Seq::empty()
    } else if hidden.last() {
        visible(hidden.drop_last())
    } else {
        visible(hidden.drop_last()).push(hidden.len() - 1)
    }
}

/// The tests of a lesson that are run on the user's machine, given which
/// tests of the lesson are hidden: the places of those that are not, in the
/// order of the lesson. A lesson without a grading configuration has no
/// tests to run, and that is an error; so is a lesson whose tests are all
/// hidden.
pub fn local_tests_to_run(hidden: Option<Vec<bool>>) -> (result: Result<Vec<usize>, ShellError>)
    ensures
        match hidden {
            None => result matches Err(ShellError::Lesson(text)) && text@
                == "Lesson has no grading configuration"@,
            Some(flags) => if visible(flags@).len() == 0 {
                result matches Err(ShellError::Lesson(text)) && text@
                    == "No local tests available"@
            } else {
                result matches Ok(places) && places@.len() == visible(flags@).len() && forall|
                    k: int,
                |
                    0 <= k < places@.len() ==> #[trigger] places@[k] == visible(flags@)[k]
            },
        },
{
    let flags = match hidden {
        Some(flags) => flags,
        None => {
            return Err(ShellError::Lesson("Lesson has no grading configuration".to_owned()));
        },
    };
    let mut places: Vec<usize> = Vec::new();
    let mut i: usize = 0;
    while i < flags.len()
        invariant
            i <= flags@.len(),
            places@.len() == visible(flags@.take(i as int)).len(),
            forall|k: int|
                0 <= k < places@.len() ==> #[trigger] places@[k] == visible(
                    flags@.take(i as int),
                )[k],
        decreases flags@.len() - i,
    {
        proof {
            assert(flags@.take(i + 1).drop_last() =~= flags@.take(i as int));
        }
        if !flags[i] {
            places.push(i);
        }
        i += 1;
    }
    proof {
        assert(flags@.take(i as int) =~= flags@);
    }
    if places.len() == 0 {
        return Err(ShellError::Lesson("No local tests available".to_owned()));
    }
    Ok(places)
}

/// The image for a language, whatever the case it is written in.
pub fn get_language_image(language: &str) -> (result: Result<String, ShellError>)
    ensures
        match image_of(lowercase(language@)) {
            Some(image) => result matches Ok(name) && name@ == image,
            None => result matches Err(ShellError::Execution(text)) && text@ == unsupported(
                language@,
            ),
        },
{
    crate::commands::execution::get_language_image(language)
}

} // verus!
