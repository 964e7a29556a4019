//! The command dispatcher: interpret one action code and decide, up
//! front, everything one invocation must do to the filesystem. The
//! decision is returned as a `Plan`; the caller carries it out.

use vstd::prelude::*;

use crate::bytes::copy_bytes;
use crate::errors::Error;
use crate::names::{derived_name_spec, head_self_name_spec, new_head_name, new_name};
use crate::paths::{
    filename_spec, find_headstate, head_record_name_spec, path_to_name, with_file_name,
    with_file_name_spec,
};

verus! {

/// ASCII `e`: attach the file to the current head.
pub const KEY_ATTACH: u8 = 101;

/// ASCII `r`: make the file the new head.
pub const KEY_SET_HEAD: u8 = 114;

/// ASCII `q`: do nothing.
pub const KEY_QUIT: u8 = 113;

/// The three actions an invocation can perform.
#[derive(Clone, Copy, Debug, PartialEq, Eq, Structural)]
pub enum ActionCode {
    /// Record the target as the new group head and rename it to its
    /// self-referential group name.
    SetHead,
    /// Rename the target so its name derives from the current head.
    Attach,
    /// Do nothing at all.
    Quit,
}

/// Everything one invocation must do to the filesystem, decided before
/// anything is touched.
#[derive(Debug, PartialEq, Eq)]
pub enum Plan {
    /// No mutation of any kind.
    Quit,
    /// Overwrite the record at `record_path` with `record_content`, then
    /// rename `rename_from` to `rename_to`, in that order.
    SetHead { record_path: Vec<u8>, record_content: Vec<u8>, rename_from: Vec<u8>, rename_to: Vec<u8> },
    /// Rename `rename_from` to `rename_to`.
    Attach { rename_from: Vec<u8>, rename_to: Vec<u8> },
}

/// Interpret a one-character action code; any other code is a protocol
/// error.
pub fn parse_action(key: &Vec<u8>) -> (r: Result<ActionCode, Error>)
    ensures
        key@ == seq![KEY_SET_HEAD] ==> (r matches Ok(a) && a is SetHead),
        key@ == seq![KEY_ATTACH] ==> (r matches Ok(a) && a is Attach),
        key@ == seq![KEY_QUIT] ==> (r matches Ok(a) && a is Quit),
        !(key@ == seq![KEY_SET_HEAD] || key@ == seq![KEY_ATTACH] || key@ == seq![KEY_QUIT]) ==> (
        r matches Err(e) && (e matches Error::UnknownAction { key: k } && k@ == key@)),
{
    if key.len() == 1 {
        let k: u8 = key[0];
        proof {
            assert(key@ =~= seq![key@[0]]);
        }
        if k == KEY_ATTACH {
            return Ok(ActionCode::Attach);
        }
        if k == KEY_SET_HEAD {
            return Ok(ActionCode::SetHead);
        }
        if k == KEY_QUIT {
            return Ok(ActionCode::Quit);
        }
    }
    Err(Error::UnknownAction { key: copy_bytes(key) })
}

/// Decide the filesystem effect of one invocation: `action` applied to
/// `target`, with `head_content` the content of the head record if it
/// could be read. Nothing is decided that the caller must re-check: each
/// precondition failure is the error the invocation dies with, and a plan
/// is only returned when every one holds.
pub fn plan(action: ActionCode, target: &Vec<u8>, head_content: Option<&Vec<u8>>) -> (r: Result<
    Plan,
    Error,
>)
    ensures
        action is Quit ==> (r matches Ok(p) && p is Quit),
        action is SetHead && filename_spec(target@).len() == 0 ==> (r matches Err(e) && (e
            matches Error::NoFilename { path: p } && p@ == target@)),
        action is SetHead && filename_spec(target@).len() > 0 ==> (r matches Ok(p) && (p
            matches Plan::SetHead { record_path, record_content, rename_from, rename_to }
            && record_path@ == with_file_name_spec(target@, head_record_name_spec())
            && record_content@ == target@ && rename_from@ == target@ && rename_to@
            == with_file_name_spec(target@, head_self_name_spec(filename_spec(target@))))),
        action is Attach && filename_spec(target@).len() == 0 ==> (r matches Err(e) && (e
            matches Error::NoFilename { path: p } && p@ == target@)),
        action is Attach && filename_spec(target@).len() > 0 && head_content is None ==> (r
            matches Err(e) && (e matches Error::HeadRecordMissing { record_path: p } && p@
            == with_file_name_spec(target@, head_record_name_spec()))),
        head_content matches Some(h) ==> (action is Attach && filename_spec(target@).len() > 0
            && filename_spec(h@).len() == 0 ==> (r matches Err(e) && (e
            matches Error::NoFilename { path: p } && p@ == h@))),
        head_content matches Some(h) ==> (action is Attach && filename_spec(target@).len() > 0
            && filename_spec(h@).len() > 0 ==> (r matches Ok(p) && (p matches Plan::Attach {
            rename_from,
            rename_to,
        } && rename_from@ == target@ && rename_to@ == with_file_name_spec(
            target@,
            derived_name_spec(filename_spec(h@), filename_spec(target@)),
        )))),
{
    match action {
        ActionCode::Quit => Ok(Plan::Quit),
        ActionCode::SetHead => {
            let self_name = match new_head_name(target) {
                Ok(n) => n,
                Err(e) => {
                    return Err(e);
                },
            };
            Ok(
                Plan::SetHead {
                    record_path: find_headstate(target),
                    record_content: copy_bytes(target),
                    rename_from: copy_bytes(target),
                    rename_to: with_file_name(target, &self_name),
                },
            )
        },
        ActionCode::Attach => {
            // The target's own filename is checked before the head record
            // is consulted, so a target without one is always reported as
            // such.
            match path_to_name(target) {
                Ok(_) => {},
                Err(e) => {
                    return Err(e);
                },
            }
            match head_content {
                None => Err(Error::HeadRecordMissing { record_path: find_headstate(target) }),
                Some(h) => {
                    let derived = match new_name(h, target) {
                        Ok(n) => n,
                        Err(e) => {
                            return Err(e);
                        },
                    };
                    Ok(
                        Plan::Attach {
                            rename_from: copy_bytes(target),
                            rename_to: with_file_name(target, &derived),
                        },
                    )
                },
            }
        },
    }
}

} // verus!
