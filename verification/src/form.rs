//! What the person at the front end has entered, and what follows from it.

use vstd::prelude::*;
use vstd::string::*;
use crate::exchange::{Action, Exchange, opening};
use crate::order::ByteOrder;
use crate::trust::loaded;

verus! {

/// The ending that a model file must have.
pub open spec fn model_extension() -> Seq<char> {
    "glb"@
}

/// Whether a file with the ending `extension` is taken for a model.
pub fn is_model(extension: &str) -> (yes: bool)
    ensures
        yes == (extension@ == model_extension()),
{
    let given = String::from_str(extension);
    let wanted = String::from_str("glb");
    given == wanted
}

/// The three entries of the upload form.
#[derive(Clone, Debug, PartialEq, Eq)]
pub struct MyApp {
    /// The model that was picked, if one was.
    pub picked_path: Option<String>,
    pub auth_token: String,
    /// The server's address.
    pub ip: String,
}

impl MyApp {
    /// An empty form.
    pub fn new() -> (form: MyApp)
        ensures
            form.picked_path is None,
            form.auth_token@.len() == 0,
            form.ip@.len() == 0,
    {
        MyApp { picked_path: None, auth_token: String::new(), ip: String::new() }
    }

    /// Whether the form is filled in: a model is picked, and neither the token nor the
    /// address is empty.
    pub open spec fn filled(&self) -> bool {
        &&& self.picked_path is Some
        &&& self.auth_token@.len() > 0
        &&& self.ip@.len() > 0
    }

    /// Whether the form may be sent.
    pub fn can_send(&self) -> (yes: bool)
        ensures
            yes == self.filled(),
    {
        self.picked_path.is_some() && !self.auth_token.as_str().is_empty()
            && !self.ip.as_str().is_empty()
    }

    /// Offers the file at `path`, whose name ends in `extension`, as the model.
    ///
    /// A model is taken and replaces the one picked before. Anything else is turned
    /// down and leaves the form as it was.
    pub fn offer(&mut self, path: String, extension: &str) -> (taken: bool)
        ensures
            taken == (extension@ == model_extension()),
            final(self).auth_token == old(self).auth_token,
            final(self).ip == old(self).ip,
            final(self).picked_path == if taken {
                Some(path)
            } else {
                old(self).picked_path
            },
    {
        if is_model(extension) {
            self.picked_path = Some(path);
            true
        } else {
            false
        }
    }

    /// Starts the upload if the form is filled in and sending was asked for.
    pub fn send_model(
        &self,
        clicked: bool,
        bundle: &[u8],
        order: ByteOrder,
        reply_limit: u64,
    ) -> (started: Option<(Exchange, Action)>)
        ensures
            started is Some <==> clicked && self.filled(),
            started matches Some(start) ==> (start.0@, start.1@) == opening(
                loaded(bundle@),
                self.ip@,
                self.picked_path->0@,
                self.auth_token@,
                order,
                reply_limit,
            ),
    {
        if clicked && self.can_send() {
            Some(self.send_to_server(bundle, order, reply_limit))
        } else {
            None
        }
    }

    /// Starts the upload of the picked model to the address of the form, with its
    /// token.
    pub fn send_to_server(&self, bundle: &[u8], order: ByteOrder, reply_limit: u64) -> (start: (
        Exchange,
        Action,
    ))
        requires
            self.picked_path is Some,
        ensures
            (start.0@, start.1@) == opening(
                loaded(bundle@),
                self.ip@,
                self.picked_path->0@,
                self.auth_token@,
                order,
                reply_limit,
            ),
    {
        let path: &String = self.picked_path.as_ref().unwrap();
        Exchange::begin(
            bundle,
            self.ip.as_str(),
            path.as_str(),
            self.auth_token.as_str(),
            order,
            reply_limit,
        )
    }
}

/// A file that is held over the window.
#[derive(Clone, Debug, PartialEq, Eq)]
pub struct HoveredFile {
    /// The path as it is shown.
    pub path: String,
    /// The ending of the file's name.
    pub extension: String,
}

/// The text shown over the window while the files `files` are held over it, each given
/// by what is shown of its path and by its ending.
///
/// Models are listed under a heading. A file that is no model puts a remark in place
/// of all that stood there before it.
pub open spec fn preview_text(files: Seq<(Seq<char>, Seq<char>)>) -> Seq<char>
    decreases files.len(),
{
    if files.len() == 0 {
        "Dropping files:\n"@
    } else if files.last().1 == model_extension() {
        preview_text(files.drop_last()) + "\n"@ + files.last().0
    } else {
        "Only .glb files are supported currently!"@
    }
}

/// The files of `files` as specifications see them.
pub open spec fn hovered_view(files: Seq<HoveredFile>) -> Seq<(Seq<char>, Seq<char>)> {
    Seq::new(files.len(), |i: int| (files[i].path@, files[i].extension@))
}

/// Makes the text that is shown while `files` are held over the window.
pub fn preview_files_being_dropped(files: &Vec<HoveredFile>) -> (text: String)
    ensures
        text@ == preview_text(hovered_view(files@)),
{
    let mut text = String::from_str("Dropping files:\n");
    let ghost all = hovered_view(files@);
    let mut i: usize = 0;
    assert(all.take(0) =~= Seq::empty());
    while i < files.len()
        invariant
            i <= files.len(),
            all == hovered_view(files@),
            text@ == preview_text(all.take(i as int)),
        decreases files.len() - i,
    {
        let file = &files[i];
        assert(all.take(i + 1).drop_last() =~= all.take(i as int));
        assert(all.take(i + 1).last() == (file.path@, file.extension@));
        if is_model(file.extension.as_str()) {
            text.append("\n");
            text.append(file.path.as_str());
        } else {
            text = String::from_str("Only .glb files are supported currently!");
        }
        i = i + 1;
    }
    assert(all.take(i as int) =~= all);
    text
}

} // verus!
