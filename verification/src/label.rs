//! Names used by labels, label groups and entity definitions.

use vstd::prelude::*;
use vstd::string::StringExecFns;

verus! {

/// The name of a label within a dataset's taxonomy.
pub struct LabelName(pub String);

/// The name of a label group.
pub struct LabelGroupName(pub String);

/// The name of an entity definition.
pub struct EntityName(pub String);

/// The name of the label group every dataset starts with.
pub fn default_label_group_name() -> (r: LabelGroupName)
    ensures
        r.0@ == "default"@,
{
    LabelGroupName(String::from_str("default"))
}

/// The definition of a label within a dataset.
pub struct LabelDef {
    pub name: LabelName,
    pub title: String,
    pub description: String,
}

/// A label group of a dataset.
pub struct LabelGroup {
    pub name: LabelGroupName,
}

/// The definition of an entity kind within a dataset.
pub struct EntityDef {
    pub name: EntityName,
    pub title: String,
}

impl Clone for LabelName {
    fn clone(&self) -> (r: Self)
        ensures
            r == *self,
    {
        LabelName(self.0.clone())
    }
}

impl Clone for LabelGroupName {
    fn clone(&self) -> (r: Self)
        ensures
            r == *self,
    {
        LabelGroupName(self.0.clone())
    }
}

impl Clone for EntityName {
    fn clone(&self) -> (r: Self)
        ensures
            r == *self,
    {
        EntityName(self.0.clone())
    }
}

} // verus!
