//! The HTML back end: presenters loaded from a folder, the slot that shows
//! them, and the commands of the browser side.
use vstd::prelude::*;
use crate::error::MmeResult;
use crate::presenter::Presenter;
use crate::slot::SlotTrait;

pub mod webview_con;

verus! {

/// A path of the file system.
#[verifier::external_type_specification]
#[verifier::external_body]
pub struct ExPathBuf(std::path::PathBuf);

/// Web content loaded from a folder.
pub struct HtmlPresenter {
    pub path: std::path::PathBuf,
}

impl HtmlPresenter {
    /// The presenter of the web content in the folder at `path`.
    pub fn from_folder(path: std::path::PathBuf) -> (res: MmeResult<HtmlPresenter>)
        ensures
            res matches Ok(p) && p.path == path,
    {
        Ok(HtmlPresenter { path })
    }
}

/// A slot that shows web content.
pub struct HtmlSlot {}

impl SlotTrait for HtmlSlot {
    fn load(&mut self, presenter: Presenter) -> (res: MmeResult<()>)
        ensures
            res is Ok,
    {
        Ok(())
    }
}

/// The index of the first command whose name is `name`, if any.
pub fn find_command(names: &Vec<String>, name: &String) -> (res: Option<usize>)
    ensures
        res matches Some(i) ==> i < names@.len() && names@[i as int]@ == name@,
        res matches Some(i) ==> forall|j: int| 0 <= j < i ==> names@[j]@ != name@,
        res is None ==> forall|j: int| 0 <= j < names@.len() ==> names@[j]@ != name@,
{
    let n = names.len();
    for i in 0..n
        invariant
            n == names@.len(),
            forall|j: int| 0 <= j < i ==> names@[j]@ != name@,
    {
        if names[i] == *name {
            return Some(i);
        }
    }
    None
}

} // verus!
