//! Columns and their properties.

use crate::types::EzqlType;
use crate::types::EzqlValue;
use crate::types::ValueView;
use vstd::prelude::*;

verus! {

/// One column of a table: its name, its type and its properties in declaration order.
#[derive(Debug, PartialEq, Eq)]
pub struct Column {
    pub name: String,
    pub data_type: EzqlType,
    pub properties: Vec<ColumnProperty>,
}

/// A constraint or a default attached to a column.
#[derive(Debug, PartialEq, Eq)]
pub enum ColumnProperty {
    PrimaryKey,
    NotNull,
    Unique,
    Default(EzqlValue),
}

/// The mathematical content of a [`ColumnProperty`].
pub ghost enum PropertyView {
    PrimaryKey,
    NotNull,
    Unique,
    Default(ValueView),
}

/// The mathematical content of a [`Column`].
pub ghost struct ColumnView {
    pub name: Seq<char>,
    pub data_type: EzqlType,
    pub properties: Seq<PropertyView>,
}

impl View for ColumnProperty {
    type V = PropertyView;

    open spec fn view(&self) -> PropertyView {
        match *self {
            ColumnProperty::PrimaryKey => PropertyView::PrimaryKey,
            ColumnProperty::NotNull => PropertyView::NotNull,
            ColumnProperty::Unique => PropertyView::Unique,
            ColumnProperty::Default(v) => PropertyView::Default(v@),
        }
    }
}

impl View for Column {
    type V = ColumnView;

    open spec fn view(&self) -> ColumnView {
        ColumnView {
            name: self.name@,
            data_type: self.data_type,
            properties: self.properties@.map_values(|p: ColumnProperty| p@),
        }
    }
}

impl Clone for ColumnProperty {
    fn clone(&self) -> (res: Self)
        ensures
            res@ == self@,
    {
        match self {
            ColumnProperty::PrimaryKey => ColumnProperty::PrimaryKey,
            ColumnProperty::NotNull => ColumnProperty::NotNull,
            ColumnProperty::Unique => ColumnProperty::Unique,
            ColumnProperty::Default(v) => ColumnProperty::Default(v.clone()),
        }
    }
}

impl Clone for Column {
    fn clone(&self) -> (res: Self)
        ensures
            res@ == self@,
    {
        let mut properties: Vec<ColumnProperty> = Vec::new();
        let mut i: usize = 0;
        while i < self.properties.len()
            invariant
                i <= self.properties.len(),
                properties.len() == i,
                forall|k: int| 0 <= k < i ==> properties[k]@ == self.properties[k]@,
            decreases self.properties.len() - i,
        {
            properties.push(self.properties[i].clone());
            i += 1;
        }
        let res = Column { name: self.name.clone(), data_type: self.data_type.clone(), properties };
        assert(res@.properties =~= self@.properties);
        res
    }
}

/// The value of the first `Default` among `properties`, if there is one.
pub open spec fn first_default(properties: Seq<PropertyView>) -> Option<ValueView>
    decreases properties.len(),
{
    if properties.len() == 0 {
        None
    } else {
        match properties[0] {
            PropertyView::Default(v) => Some(v),
            _ => first_default(properties.drop_first()),
        }
    }
}

impl ColumnView {
    /// Some property declares a default.
    pub open spec fn has_default(self) -> bool {
        exists|i: int| 0 <= i < self.properties.len() && #[trigger] self.properties[i] is Default
    }

    /// The default that the column declares first.
    pub open spec fn get_default(self) -> Option<ValueView> {
        first_default(self.properties)
    }

    /// Some property marks the column as primary key.
    pub open spec fn is_primary_key(self) -> bool {
        exists|i: int|
            0 <= i < self.properties.len() && #[trigger] self.properties[i] is PrimaryKey
    }
}

/// A default is found exactly where some property declares one, and it is the
/// value of the earliest such property.
pub proof fn lemma_first_default(properties: Seq<PropertyView>)
    ensures
        first_default(properties) is Some <==> exists|i: int|
            0 <= i < properties.len() && #[trigger] properties[i] is Default,
        first_default(properties) matches Some(v) ==> exists|i: int|
            0 <= i < properties.len() && #[trigger] properties[i] == PropertyView::Default(v)
                && forall|j: int| 0 <= j < i ==> !(#[trigger] properties[j] is Default),
    decreases properties.len(),
{
    if properties.len() > 0 {
        let rest = properties.drop_first();
        lemma_first_default(rest);
        match properties[0] {
            PropertyView::Default(v) => {
            },
            _ => {
                if first_default(rest) is Some {
                    let v = first_default(rest)->Some_0;
                    let i = choose|i: int|
                        0 <= i < rest.len() && #[trigger] rest[i] == PropertyView::Default(v)
                            && forall|j: int| 0 <= j < i ==> !(#[trigger] rest[j] is Default);
                    assert forall|j: int| 0 <= j < i + 1 implies !(#[trigger] properties[j]
                        is Default) by {
                        if j > 0 {
                            assert(!(rest[j - 1] is Default));
                        }
                    }
                }
                if exists|i: int| 0 <= i < properties.len() && #[trigger] properties[i] is Default {
                    let i = choose|i: int|
                        0 <= i < properties.len() && #[trigger] properties[i] is Default;
                    assert(rest[i - 1] is Default);
                }
            },
        }
    }
}

impl ColumnProperty {
    /// The property that declares `value`, converted to a value of this crate, as default.
    pub fn default<T>(value: T) -> (property: Self) where EzqlValue: From<T>
        ensures
            property matches ColumnProperty::Default(v) && call_ensures(
                <EzqlValue as From<T>>::from,
                (value,),
                v,
            ),
    {
        ColumnProperty::Default(EzqlValue::from(value))
    }
}

impl Column {
    /// Whether some property of the column declares a default.
    pub fn has_default(&self) -> (found: bool)
        ensures
            found == self@.has_default(),
    {
        let mut i: usize = 0;
        while i < self.properties.len()
            invariant
                i <= self.properties.len(),
                forall|j: int| 0 <= j < i ==> !(#[trigger] self@.properties[j] is Default),
            decreases self.properties.len() - i,
        {
            if let ColumnProperty::Default(_) = &self.properties[i] {
                assert(self@.properties[i as int] is Default);
                return true;
            }
            i += 1;
        }
        false
    }

    /// The default that the column declares first, if it declares one.
    pub fn get_default(&self) -> (value: Option<EzqlValue>)
        ensures
            value matches Some(v) ==> self@.get_default() == Some(v@),
            value is None ==> self@.get_default() is None,
    {
        let ghost all = self@.properties;
        let mut i: usize = 0;
        assert(all.skip(0) =~= all);
        while i < self.properties.len()
            invariant
                i <= self.properties.len(),
                all == self@.properties,
                first_default(all) == first_default(all.skip(i as int)),
            decreases self.properties.len() - i,
        {
            proof {
                assert(all.skip(i as int).drop_first() =~= all.skip(i as int + 1));
            }
            if let ColumnProperty::Default(v) = &self.properties[i] {
                return Some(v.clone());
            }
            i += 1;
        }
        None
    }

    /// Whether some property marks the column as primary key.
    pub fn is_primary_key(&self) -> (found: bool)
        ensures
            found == self@.is_primary_key(),
    {
        let mut i: usize = 0;
        while i < self.properties.len()
            invariant
                i <= self.properties.len(),
                forall|j: int| 0 <= j < i ==> !(#[trigger] self@.properties[j] is PrimaryKey),
            decreases self.properties.len() - i,
        {
            if let ColumnProperty::PrimaryKey = &self.properties[i] {
                assert(self@.properties[i as int] is PrimaryKey);
                return true;
            }
            i += 1;
        }
        false
    }

    /// The column's name.
    pub fn to_string(&self) -> (text: String)
        ensures
            text@ == self@.name,
    {
        self.name.clone()
    }
}

} // verus!
