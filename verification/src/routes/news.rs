//! What the endpoints of the news decide.

use crate::error::ApplicationError;
use crate::error::ErrorView;
use vstd::prelude::*;

verus! {

/// What the creation of news brings.
#[derive(Debug)]
pub struct CreateNewsRequest {
    /// the content of the news
    pub content: String,
}

/// `PUT /news/:news_id`, before anything is stored: news can be shown only
/// once the extension of their picture is set.
pub fn update_news(extension: &Option<String>, shown: bool) -> (r: Result<(), ApplicationError>)
    ensures
        extension is None && shown ==> r is Err && r->Err_0@ == ErrorView::BadRequest(
            "extension has to be set in order to shown news"@,
        ),
        !(extension is None && shown) ==> r is Ok,
{
    if extension.is_none() && shown {
        return Err(
            ApplicationError::BadRequest("extension has to be set in order to shown news".to_owned()),
        );
    }
    Ok(())
}

} // verus!
