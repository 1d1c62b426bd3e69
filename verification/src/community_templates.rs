//! Community template submissions: what a submission needs, who may see,
//! review and delete one, and how a review moves it on.
use vstd::prelude::*;
use crate::error::ApiError;
use crate::text::{owned, str_eq, trim, trim_str};

verus! {

/// The fields of a submission that are checked.
pub struct SubmitTemplateRequest {
    pub name: String,
    pub description: String,
    pub compose_content: String,
}

/// Checks a new submission: name, description and compose content must
/// not be blank.
pub fn validate_submission(req: &SubmitTemplateRequest) -> (r: Result<(), ApiError>)
    ensures
        trim(req.name@).len() == 0 ==> (r matches Err(ApiError::Validation { field, message })
            && field@ == "name"@ && message@ == "Name is required"@),
        trim(req.name@).len() > 0 && trim(req.description@).len() == 0 ==> (r matches Err(
            ApiError::Validation { field, message },
        ) && field@ == "description"@ && message@ == "Description is required"@),
        trim(req.name@).len() > 0 && trim(req.description@).len() > 0 && trim(req.compose_content@).len()
            == 0 ==> (r matches Err(ApiError::Validation { field, message }) && field@
            == "compose_content"@ && message@ == "Compose content is required"@),
        r is Ok <==> (trim(req.name@).len() > 0 && trim(req.description@).len() > 0 && trim(
            req.compose_content@,
        ).len() > 0),
{
    if trim_str(req.name.as_str()).len() == 0 {
        return Err(ApiError::Validation { field: owned("name"), message: owned("Name is required") });
    }
    if trim_str(req.description.as_str()).len() == 0 {
        return Err(
            ApiError::Validation {
                field: owned("description"),
                message: owned("Description is required"),
            },
        );
    }
    if trim_str(req.compose_content.as_str()).len() == 0 {
        return Err(
            ApiError::Validation {
                field: owned("compose_content"),
                message: owned("Compose content is required"),
            },
        );
    }
    Ok(())
}

/// Only admins list all submissions.
pub fn check_list(role: &str) -> (r: Result<(), ApiError>)
    ensures
        r is Ok <==> role@ == "admin"@,
        r matches Err(e) ==> (e matches ApiError::Forbidden(m) && m@ == "Admin access required"@),
{
    if str_eq(role, "admin") {
        Ok(())
    } else {
        Err(ApiError::Forbidden(owned("Admin access required")))
    }
}

/// A submission may be seen by admins and by its submitter.
pub fn check_view(role: &str, user_id: &str, submitted_by: &str) -> (r: Result<(), ApiError>)
    ensures
        r is Ok <==> (role@ == "admin"@ || submitted_by@ == user_id@),
        r matches Err(e) ==> (e matches ApiError::Forbidden(m) && m@
            == "You can only view your own submissions"@),
{
    if str_eq(role, "admin") || str_eq(submitted_by, user_id) {
        Ok(())
    } else {
        Err(ApiError::Forbidden(owned("You can only view your own submissions")))
    }
}

/// The status a review leaves a pending submission in, if the review is
/// allowed: only admins review, the action is `approve` or `reject`, and
/// only pending submissions are reviewed (`status` is `None` when the
/// submission does not exist).
pub open spec fn spec_review(role: Seq<char>, action: Seq<char>, status: Option<Seq<char>>) -> Result<
    Seq<char>,
    (u16, Seq<char>),
> {
    if role != "admin"@ {
        Err((403, "Admin access required"@))
    } else if action != "approve"@ && action != "reject"@ {
        Err((400, "Action must be 'approve' or 'reject'"@))
    } else {
        match status {
            None => Err((404, "Submission not found"@)),
            Some(s) => if s != "pending"@ {
                Err((400, "Only pending submissions can be reviewed"@))
            } else if action == "approve"@ {
                Ok("approved"@)
            } else {
                Ok("rejected"@)
            },
        }
    }
}

/// Reviews a submission: the status it moves to, or why the review is
/// refused.
pub fn review_submission(role: &str, action: &str, status: &Option<String>) -> (r: Result<String, ApiError>)
    ensures
        match spec_review(
            role@,
            action@,
            match status {
                Some(s) => Some(s@),
                None => None,
            },
        ) {
            Ok(s) => r matches Ok(x) && x@ == s,
            Err((code, m)) => r matches Err(e) && e.spec_status() == code && e.spec_message() == m,
        },
{
    if !str_eq(role, "admin") {
        return Err(ApiError::Forbidden(owned("Admin access required")));
    }
    if !str_eq(action, "approve") && !str_eq(action, "reject") {
        return Err(
            ApiError::Validation {
                field: owned("action"),
                message: owned("Action must be 'approve' or 'reject'"),
            },
        );
    }
    match status {
        None => Err(ApiError::NotFound(owned("Submission not found"))),
        Some(s) => {
            if !str_eq(s.as_str(), "pending") {
                Err(ApiError::BadRequest(owned("Only pending submissions can be reviewed")))
            } else if str_eq(action, "approve") {
                Ok(owned("approved"))
            } else {
                Ok(owned("rejected"))
            }
        },
    }
}

/// A review decides a submission once: a reviewed submission is approved
/// or rejected, and reviewing it again is refused.
pub proof fn law_review_is_final(role: Seq<char>, action: Seq<char>, status: Seq<char>, again: Seq<char>)
    requires
        spec_review(role, action, Some(status)) is Ok,
    ensures
        spec_review(role, action, Some(status)) == Ok::<Seq<char>, (u16, Seq<char>)>("approved"@)
            || spec_review(role, action, Some(status)) == Ok::<Seq<char>, (u16, Seq<char>)>(
            "rejected"@,
        ),
        spec_review(role, again, Some(spec_review(role, action, Some(status))->Ok_0)) is Err,
{
    reveal_strlit("approved");
    reveal_strlit("rejected");
    reveal_strlit("pending");
    assert("approved"@[0] != "pending"@[0]);
    assert("rejected"@[0] != "pending"@[0]);
}

/// A submission may be deleted by admins, and by its submitter while it
/// is pending.
pub fn check_delete(role: &str, user_id: &str, submitted_by: &str, status: &str) -> (r: Result<(), ApiError>)
    ensures
        role@ != "admin"@ && submitted_by@ != user_id@ ==> (r matches Err(ApiError::Forbidden(m))
            && m@ == "You can only delete your own submissions"@),
        role@ != "admin"@ && submitted_by@ == user_id@ && status@ != "pending"@ ==> (r matches Err(
            ApiError::BadRequest(m),
        ) && m@ == "You can only delete pending submissions"@),
        r is Ok <==> (role@ == "admin"@ || (submitted_by@ == user_id@ && status@ == "pending"@)),
{
    let admin = str_eq(role, "admin");
    if !admin && !str_eq(submitted_by, user_id) {
        return Err(ApiError::Forbidden(owned("You can only delete your own submissions")));
    }
    if !admin && !str_eq(status, "pending") {
        return Err(ApiError::BadRequest(owned("You can only delete pending submissions")));
    }
    Ok(())
}

} // verus!
