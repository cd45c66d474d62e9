//! What a slot can show.
use vstd::prelude::*;
use crate::implementors::html::HtmlPresenter;

verus! {

/// A presenter: the content that a slot shows.
pub enum Presenter {
    /// Web content loaded from a folder.
    HtmlPresenter(HtmlPresenter),
}

} // verus!
