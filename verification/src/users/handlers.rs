use crate::shared::error::AppError;
use crate::shared::response::ApiResponse;
use crate::shared::result::DomainResult;
use crate::users::dtos::{response_of, shown, UserResponse, UserResponseModel};
use crate::users::entities::{user_models, User, UserModel};
use crate::users::usecases::{outcome_view, Output, OutputModel};
use vstd::prelude::*;

verus! {

/// A list of shown users, as text.
pub open spec fn responses_view(responses: Seq<UserResponse>) -> Seq<UserResponseModel> {
    responses.map_values(|r: UserResponse| r@)
}

/// What is shown of each user of a list.
pub open spec fn shown_all(users: Seq<UserModel>) -> Seq<UserResponseModel> {
    Seq::new(users.len(), |i: int| shown(users[i]))
}

/// The message of the internal error that stands for an outcome which the
/// use case cannot have.
pub open spec fn unexpected_error() -> Seq<char> {
    "Unexpected error"@
}

/// The message of the error that says that no user has the id.
pub open spec fn user_not_found() -> Seq<char> {
    "User not found"@
}

/// An answer is the internal error with the given detail.
pub open spec fn is_internal<T>(r: Result<ApiResponse<T>, AppError>, detail: Seq<char>) -> bool {
    r matches Err(AppError::Internal(m)) && m@ == detail
}

/// An answer is the error that says that no user has the id.
pub open spec fn is_not_found<T>(r: Result<ApiResponse<T>, AppError>) -> bool {
    r matches Err(AppError::NotFound(m)) && m@ == user_not_found()
}

/// An answer shows one user under the given status and message.
pub open spec fn shows_user(
    r: Result<ApiResponse<UserResponse>, AppError>,
    status: u16,
    text: Seq<char>,
    user: UserModel,
) -> bool {
    r matches Ok(resp) && resp.status() == status && resp.text() == text && (
    resp.payload() matches Some(shown_user) && shown_user@ == shown(user))
}

/// The answer to listing, for each outcome.
pub open spec fn list_answer(
    outcome: DomainResult<OutputModel, Seq<char>>,
    r: Result<ApiResponse<Vec<UserResponse>>, AppError>,
) -> bool {
    match outcome {
        DomainResult::Success(OutputModel::Listed(users)) => r matches Ok(resp) && resp.status()
            == 200 && resp.text() == "success"@ && (resp.payload() matches Some(v)
            && responses_view(v@) == shown_all(users)),
        DomainResult::Failure(e) => is_internal(r, e),
        _ => is_internal(r, unexpected_error()),
    }
}

/// The answer to reading or updating one user, for each outcome.
pub open spec fn user_answer(
    outcome: DomainResult<OutputModel, Seq<char>>,
    r: Result<ApiResponse<UserResponse>, AppError>,
) -> bool {
    match outcome {
        DomainResult::Success(OutputModel::Single(user)) => shows_user(r, 200, "success"@, user),
        DomainResult::NotFound => is_not_found(r),
        DomainResult::Failure(e) => is_internal(r, e),
        _ => is_internal(r, unexpected_error()),
    }
}

/// The answer to creating a user, for each outcome.
pub open spec fn created_answer(
    outcome: DomainResult<OutputModel, Seq<char>>,
    r: Result<ApiResponse<UserResponse>, AppError>,
) -> bool {
    match outcome {
        DomainResult::Success(OutputModel::Single(user)) => shows_user(r, 201, "created"@, user),
        DomainResult::Failure(e) => is_internal(r, e),
        _ => is_internal(r, unexpected_error()),
    }
}

/// The answer to deleting a user, for each outcome.
pub open spec fn deleted_answer(
    outcome: DomainResult<OutputModel, Seq<char>>,
    r: Result<ApiResponse<()>, AppError>,
) -> bool {
    match outcome {
        DomainResult::Success(_) => r matches Ok(resp) && resp.status() == 200 && resp.text()
            == "success"@ && resp.payload() == Some(()),
        DomainResult::NotFound => is_not_found(r),
        DomainResult::Failure(e) => is_internal(r, e),
    }
}

fn unexpected<T>() -> (r: Result<ApiResponse<T>, AppError>)
    ensures
        is_internal(r, unexpected_error()),
{
    Err(AppError::Internal("Unexpected error".to_owned()))
}

fn not_found<T>() -> (r: Result<ApiResponse<T>, AppError>)
    ensures
        is_not_found(r),
{
    Err(AppError::NotFound("User not found".to_owned()))
}

/// What is shown of each user of a list, in the same order.
pub fn show_users(users: Vec<User>) -> (shown_users: Vec<UserResponse>)
    ensures
        responses_view(shown_users@) == shown_all(user_models(users@)),
{
    let mut users = users;
    let ghost all = users@;
    let ghost target = shown_all(user_models(all));
    // The users are taken from the end of the list, so the answers come out
    // in reverse and are turned round afterwards.
    let mut reversed: Vec<UserResponse> = Vec::new();
    while users.len() > 0
        invariant
            users@.len() + reversed@.len() == all.len(),
            users@ == all.take(users@.len() as int),
            forall|j: int|
                0 <= j < reversed@.len() ==> (#[trigger] reversed@[j])@ == shown(
                    all[all.len() - 1 - j]@,
                ),
        decreases users.len(),
    {
        let ghost n = users@.len();
        let user = users.pop().unwrap();
        assert(user == all[n - 1]);
        let response = UserResponse::from(user);
        assert(response == response_of(user));
        reversed.push(response);
        assert(users@ =~= all.take(users@.len() as int));
    }
    let mut out: Vec<UserResponse> = Vec::new();
    while reversed.len() > 0
        invariant
            out@.len() + reversed@.len() == all.len(),
            forall|j: int|
                0 <= j < reversed@.len() ==> (#[trigger] reversed@[j])@ == shown(
                    all[all.len() - 1 - j]@,
                ),
            forall|j: int| 0 <= j < out@.len() ==> (#[trigger] out@[j])@ == shown(all[j]@),
        decreases reversed.len(),
    {
        let response = reversed.pop().unwrap();
        out.push(response);
    }
    assert(responses_view(out@) =~= target);
    out
}

/// The answer to listing every user.
pub fn get_all_users(outcome: DomainResult<Output, String>) -> (r: Result<
    ApiResponse<Vec<UserResponse>>,
    AppError,
>)
    ensures
        list_answer(outcome_view(outcome), r),
{
    match outcome {
        DomainResult::Success(Output::Listed(users)) => Ok(ApiResponse::ok(show_users(users))),
        DomainResult::Failure(e) => Err(AppError::Internal(e)),
        _ => unexpected(),
    }
}

/// The answer to reading one user.
pub fn find_one_user(outcome: DomainResult<Output, String>) -> (r: Result<
    ApiResponse<UserResponse>,
    AppError,
>)
    ensures
        user_answer(outcome_view(outcome), r),
{
    match outcome {
        DomainResult::Success(Output::Single(user)) => Ok(ApiResponse::ok(UserResponse::from(user))),
        DomainResult::NotFound => not_found(),
        DomainResult::Failure(e) => Err(AppError::Internal(e)),
        _ => unexpected(),
    }
}

/// The answer to creating a user.
pub fn create_user(outcome: DomainResult<Output, String>) -> (r: Result<
    ApiResponse<UserResponse>,
    AppError,
>)
    ensures
        created_answer(outcome_view(outcome), r),
{
    match outcome {
        DomainResult::Success(Output::Single(user)) => Ok(
            ApiResponse::created(UserResponse::from(user)),
        ),
        DomainResult::Failure(e) => Err(AppError::Internal(e)),
        _ => unexpected(),
    }
}

/// The answer to updating a user.
pub fn update_user(outcome: DomainResult<Output, String>) -> (r: Result<
    ApiResponse<UserResponse>,
    AppError,
>)
    ensures
        user_answer(outcome_view(outcome), r),
{
    find_one_user(outcome)
}

/// The answer to deleting a user.
pub fn delete_user(outcome: DomainResult<Output, String>) -> (r: Result<ApiResponse<()>, AppError>)
    ensures
        deleted_answer(outcome_view(outcome), r),
{
    match outcome {
        DomainResult::Success(_) => Ok(ApiResponse::ok(())),
        DomainResult::NotFound => not_found(),
        DomainResult::Failure(e) => Err(AppError::Internal(e)),
    }
}

} // verus!
