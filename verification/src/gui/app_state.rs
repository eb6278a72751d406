use crate::gui::instance_view::InstanceView;
use crate::gui::message::{Message, Selection, SelectionModel};
use crate::models::instance::{Instance, InstanceModel};
use crate::text::{copy_str, str_eq};
use vstd::prelude::*;

verus! {

/// The views of a list of instances.
pub open spec fn instance_models(v: Seq<Instance>) -> Seq<InstanceModel> {
    Seq::new(v.len(), |i: int| v[i]@)
}

/// The instances whose name differs from `name`, in order.
pub open spec fn without_name(s: Seq<InstanceModel>, name: Seq<char>) -> Seq<InstanceModel>
    decreases s.len(),
{
    if s.len() == 0 {
        Seq::empty()
    } else {
        let rest = without_name(s.drop_last(), name);
        if s.last().name == name {
            rest
        } else {
            rest.push(s.last())
        }
    }
}

/// The selection with the selected instance renamed.
pub open spec fn renamed(selection: SelectionModel, name: Seq<char>) -> SelectionModel {
    match selection {
        SelectionModel::Instance(k, i) => SelectionModel::Instance(k, InstanceModel { name: name, ..i }),
        SelectionModel::AddInstance(i) => SelectionModel::AddInstance(InstanceModel { name: name, ..i }),
        SelectionModel::Overview => SelectionModel::Overview,
    }
}

/// The state of the window: the instances, what is selected and the
/// content of the edit fields.
pub struct MyApp {
    pub instances: Vec<Instance>,
    pub selection: Selection,
    pub field: String,
    pub instance_view: InstanceView,
}

impl Default for MyApp {
    fn default() -> (r: Self)
        ensures
            r.instances@.len() == 0,
            r.selection@ == SelectionModel::Overview,
            r.field@ == Seq::<char>::empty(),
    {
        MyApp {
            instances: Vec::new(),
            selection: Selection::Overview,
            field: String::new(),
            instance_view: InstanceView::default(),
        }
    }
}

impl MyApp {
    /// Whether a message can be applied: saving an edited instance needs its
    /// index to be in the list.
    pub open spec fn can_update(&self, message: &Message) -> bool {
        match (message, self.selection) {
            (Message::Save, Selection::Instance(k, _)) => k < self.instances@.len(),
            _ => true,
        }
    }

    fn remove_named(instances: &Vec<Instance>, name: &str) -> (r: Vec<Instance>)
        ensures
            instance_models(r@) == without_name(instance_models(instances@), name@),
    {
        let ghost all = instance_models(instances@);
        let mut r: Vec<Instance> = Vec::new();
        let mut i: usize = 0;
        while i < instances.len()
            invariant
                i <= instances@.len(),
                all == instance_models(instances@),
                instance_models(r@) == without_name(all.take(i as int), name@),
            decreases instances@.len() - i,
        {
            proof {
                assert(all.take(i + 1).drop_last() =~= all.take(i as int));
                assert(all.take(i + 1).last() == instances@[i as int]@);
            }
            if !str_eq(instances[i].name.as_str(), name) {
                let ghost before = instance_models(r@);
                r.push(instances[i].clone());
                assert(instance_models(r@) =~= before.push(instances@[i as int]@));
            }
            i = i + 1;
        }
        assert(all.take(instances@.len() as int) =~= all);
        r
    }

    /// Applies a message to the window state.
    pub fn update(&mut self, message: Message)
        requires
            old(self).can_update(&message),
        ensures
            match message {
                Message::SelectionChanged(s) => {
                    &&& final(self).selection@ == s@
                    &&& instance_models(final(self).instances@) == instance_models(old(self).instances@)
                },
                Message::InstanceNameChanged(name) => {
                    &&& final(self).selection@ == renamed(old(self).selection@, name@)
                    &&& instance_models(final(self).instances@) == instance_models(old(self).instances@)
                },
                Message::Delete => {
                    &&& final(self).selection@ == old(self).selection@
                    &&& instance_models(final(self).instances@) == match old(self).selection@ {
                        SelectionModel::Instance(_, i) => without_name(instance_models(old(self).instances@), i.name),
                        _ => instance_models(old(self).instances@),
                    }
                },
                Message::Save => match old(self).selection@ {
                    SelectionModel::AddInstance(i) => {
                        &&& instance_models(final(self).instances@) == instance_models(old(self).instances@).push(i)
                        &&& final(self).selection@ == SelectionModel::Instance(old(self).instances@.len() as usize, i)
                    },
                    SelectionModel::Instance(k, i) => {
                        &&& instance_models(final(self).instances@) == instance_models(old(self).instances@).update(k as int, i)
                        &&& final(self).selection@ == old(self).selection@
                    },
                    SelectionModel::Overview => {
                        &&& instance_models(final(self).instances@) == instance_models(old(self).instances@)
                        &&& final(self).selection@ == old(self).selection@
                    },
                },
            },
            final(self).field@ == old(self).field@,
            final(self).instance_view.name_view() == old(self).instance_view.name_view(),
    {
        match message {
            Message::SelectionChanged(selection) => {
                self.selection = selection;
            },
            Message::InstanceNameChanged(content) => match &mut self.selection {
                Selection::Instance(_, instance) => instance.name = content,
                Selection::AddInstance(instance) => instance.name = content,
                _ => {},
            },
            Message::Delete => {
                if let Selection::Instance(_, instance) = &self.selection {
                    let kept = MyApp::remove_named(&self.instances, instance.name.as_str());
                    self.instances = kept;
                }
            },
            Message::Save => match &self.selection {
                Selection::AddInstance(instance) => {
                    let index = self.instances.len();
                    let added = instance.clone();
                    let selected = instance.clone();
                    let ghost before = instance_models(self.instances@);
                    self.instances.push(added);
                    assert(instance_models(self.instances@) =~= before.push(selected@));
                    self.selection = Selection::Instance(index, selected);
                },
                Selection::Instance(index, instance) => {
                    let k = *index;
                    let saved = instance.clone();
                    let ghost before = instance_models(self.instances@);
                    self.instances.set(k, saved);
                    assert(instance_models(self.instances@) =~= before.update(k as int, instance@));
                },
                _ => {},
            },
        }
    }
}

} // verus!
