use vstd::prelude::*;
use vstd::string::StringExecFns;
use crate::tasks::RequestPmReviewResponse;

verus! {

/// The review prompt used when the project has no PM task: a generic
/// checklist over the task under review, with any additional instructions
/// appended.
pub open spec fn spec_basic_review_prompt(
    title: Seq<char>,
    task_id: Seq<char>,
    extra: Option<Seq<char>>,
) -> Seq<char> {
    "Review the implementation of task '"@ + title + "' ("@ + task_id
        + ").\n\nNo PM specifications are configured for this project.\n\nPlease review the code changes for:\n- Code quality and best practices\n- Potential bugs or edge cases\n- Security considerations\n- Test coverage"@
        + (match extra {
        Some(i) => "\n\nAdditional instructions:\n"@ + i,
        None => Seq::<char>::empty(),
    })
}

/// The review prompt used when the project carries PM specifications: the
/// task, the specifications, and the fixed review instructions, with any
/// additional instructions as a closing section. A missing task
/// description or missing specification text is named as missing.
pub open spec fn spec_pm_review_prompt(
    title: Seq<char>,
    description: Option<Seq<char>>,
    pm_specs: Option<Seq<char>>,
    extra: Option<Seq<char>>,
) -> Seq<char> {
    "## PM-Based Code Review for Task: "@ + title + "\n\n### Task Description\n"@ + (match description {
        Some(d) => d,
        None => "No task description provided."@,
    }) + "\n\n### Project Specifications (from PM)\n"@ + (match pm_specs {
        Some(s) => s,
        None => "No detailed specifications provided."@,
    })
        + "\n\n### Review Instructions\nPlease review the implementation and verify:\n\n1. **Specification Compliance**: Does the implementation match the project specifications?\n2. **Requirements Coverage**: Are all requirements from the PM specs addressed?\n3. **Architecture Alignment**: Does the code follow the architectural patterns described in the specs?\n4. **Code Quality**: Is the code maintainable, readable, and follows best practices?\n5. **Edge Cases**: Are edge cases and error scenarios properly handled?\n6. **Test Coverage**: Are there adequate tests for the implementation?\n"@
        + (match extra {
        Some(i) => "\n### Additional Instructions\n"@ + i,
        None => Seq::<char>::empty(),
    })
}

pub open spec fn spec_opt_ref_view(o: Option<&String>) -> Option<Seq<char>> {
    match o {
        Some(s) => Some(s@),
        None => None,
    }
}

/// Builds the review answer for a project without PM specifications.
pub fn basic_review_response(task_id: &str, title: &str, extra: Option<&String>) -> (r:
    RequestPmReviewResponse)
    ensures
        r.task_id@ == task_id@,
        r.has_pm_task == false,
        r.review_prompt@ == spec_basic_review_prompt(title@, task_id@, spec_opt_ref_view(extra)),
        r.review_checklist.deep_view() =~~= seq![
            "Code quality and best practices"@,
            "Potential bugs or edge cases"@,
            "Security considerations"@,
            "Test coverage"@,
        ],
{
    let mut prompt = "Review the implementation of task '".to_owned();
    prompt.append(title);
    prompt.append("' (");
    prompt.append(task_id);
    prompt.append(
        ").\n\nNo PM specifications are configured for this project.\n\nPlease review the code changes for:\n- Code quality and best practices\n- Potential bugs or edge cases\n- Security considerations\n- Test coverage",
    );
    match extra {
        Some(i) => {
            prompt.append("\n\nAdditional instructions:\n");
            prompt.append(i.as_str());
        },
        None => {},
    }
    let mut checklist: Vec<String> = Vec::new();
    checklist.push("Code quality and best practices".to_owned());
    checklist.push("Potential bugs or edge cases".to_owned());
    checklist.push("Security considerations".to_owned());
    checklist.push("Test coverage".to_owned());
    proof {
        assert(checklist.deep_view() =~~= seq![
            "Code quality and best practices"@,
            "Potential bugs or edge cases"@,
            "Security considerations"@,
            "Test coverage"@,
        ]);
    }
    RequestPmReviewResponse {
        task_id: task_id.to_owned(),
        has_pm_task: false,
        review_prompt: prompt,
        review_checklist: checklist,
    }
}

/// Builds the review answer for a project with PM specifications.
pub fn pm_review_response(
    task_id: &str,
    title: &str,
    description: Option<&String>,
    pm_specs: Option<&String>,
    extra: Option<&String>,
) -> (r: RequestPmReviewResponse)
    ensures
        r.task_id@ == task_id@,
        r.has_pm_task == true,
        r.review_prompt@ == spec_pm_review_prompt(
            title@,
            spec_opt_ref_view(description),
            spec_opt_ref_view(pm_specs),
            spec_opt_ref_view(extra),
        ),
        r.review_checklist.deep_view() =~~= seq![
            "Specification compliance with PM docs"@,
            "All requirements addressed"@,
            "Architecture alignment"@,
            "Code quality and best practices"@,
            "Edge cases and error handling"@,
            "Test coverage"@,
        ],
{
    let mut prompt = "## PM-Based Code Review for Task: ".to_owned();
    prompt.append(title);
    prompt.append("\n\n### Task Description\n");
    match description {
        Some(d) => prompt.append(d.as_str()),
        None => prompt.append("No task description provided."),
    }
    prompt.append("\n\n### Project Specifications (from PM)\n");
    match pm_specs {
        Some(s) => prompt.append(s.as_str()),
        None => prompt.append("No detailed specifications provided."),
    }
    prompt.append(
        "\n\n### Review Instructions\nPlease review the implementation and verify:\n\n1. **Specification Compliance**: Does the implementation match the project specifications?\n2. **Requirements Coverage**: Are all requirements from the PM specs addressed?\n3. **Architecture Alignment**: Does the code follow the architectural patterns described in the specs?\n4. **Code Quality**: Is the code maintainable, readable, and follows best practices?\n5. **Edge Cases**: Are edge cases and error scenarios properly handled?\n6. **Test Coverage**: Are there adequate tests for the implementation?\n",
    );
    match extra {
        Some(i) => {
            prompt.append("\n### Additional Instructions\n");
            prompt.append(i.as_str());
        },
        None => {},
    }
    let mut checklist: Vec<String> = Vec::new();
    checklist.push("Specification compliance with PM docs".to_owned());
    checklist.push("All requirements addressed".to_owned());
    checklist.push("Architecture alignment".to_owned());
    checklist.push("Code quality and best practices".to_owned());
    checklist.push("Edge cases and error handling".to_owned());
    checklist.push("Test coverage".to_owned());
    proof {
        assert(checklist.deep_view() =~~= seq![
            "Specification compliance with PM docs"@,
            "All requirements addressed"@,
            "Architecture alignment"@,
            "Code quality and best practices"@,
            "Edge cases and error handling"@,
            "Test coverage"@,
        ]);
    }
    RequestPmReviewResponse {
        task_id: task_id.to_owned(),
        has_pm_task: true,
        review_prompt: prompt,
        review_checklist: checklist,
    }
}

} // verus!
