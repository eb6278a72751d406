use crate::models::instance::{Instance, InstanceModel};
use vstd::prelude::*;

verus! {

/// What the window shows: the overview, a new instance being added, or
/// the instance at an index of the list, with its edited copy.
#[derive(Debug, PartialEq)]
pub enum Selection {
    Overview,
    AddInstance(Instance),
    Instance(usize, Instance),
}

/// The mathematical content of a selection.
pub enum SelectionModel {
    Overview,
    AddInstance(InstanceModel),
    Instance(usize, InstanceModel),
}

impl View for Selection {
    type V = SelectionModel;

    open spec fn view(&self) -> SelectionModel {
        match self {
            Selection::Overview => SelectionModel::Overview,
            Selection::AddInstance(i) => SelectionModel::AddInstance(i@),
            Selection::Instance(k, i) => SelectionModel::Instance(*k, i@),
        }
    }
}

impl Clone for Selection {
    fn clone(&self) -> (r: Self)
        ensures
            r@ == self@,
    {
        match self {
            Selection::Overview => Selection::Overview,
            Selection::AddInstance(i) => Selection::AddInstance(i.clone()),
            Selection::Instance(k, i) => Selection::Instance(*k, i.clone()),
        }
    }
}

impl Default for Selection {
    fn default() -> (r: Self)
        ensures
            r@ == SelectionModel::Overview,
    {
        Selection::Overview
    }
}

/// What the user did in the window.
#[derive(Debug)]
pub enum Message {
    SelectionChanged(Selection),
    InstanceNameChanged(String),
    Delete,
    Save,
}

impl Clone for Message {
    fn clone(&self) -> (r: Self)
        ensures
            match (self, r) {
                (Message::SelectionChanged(a), Message::SelectionChanged(b)) => a@ == b@,
                (Message::InstanceNameChanged(a), Message::InstanceNameChanged(b)) => a@ == b@,
                (Message::Delete, Message::Delete) => true,
                (Message::Save, Message::Save) => true,
                _ => false,
            },
    {
        match self {
            Message::SelectionChanged(s) => Message::SelectionChanged(s.clone()),
            Message::InstanceNameChanged(n) => Message::InstanceNameChanged(crate::text::copy_str(n.as_str())),
            Message::Delete => Message::Delete,
            Message::Save => Message::Save,
        }
    }
}

} // verus!
