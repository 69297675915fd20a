//! Checks on a plant connection schema before it is saved.

use vstd::prelude::*;
use crate::domain::StringConnectionUpdate;
use crate::error::{ServiceError, is_configuration_error};
use crate::text::{all_decimal_digits, is_all_ascii_digits};

verus! {

/// A point id field is either left empty or made of ASCII digits only.
pub open spec fn point_id_acceptable(id: Seq<char>) -> bool {
    id.len() == 0 || all_decimal_digits(id)
}

/// Every string of the schema has acceptable current and voltage point ids.
pub open spec fn schema_point_ids_acceptable(strings: Seq<StringConnectionUpdate>) -> bool {
    forall|i: int| 0 <= i < strings.len() ==> point_id_acceptable(#[trigger] strings[i].current_point_id@)
        && point_id_acceptable(strings[i].voltage_point_id@)
}

fn acceptable(id: &String) -> (r: bool)
    ensures
        r == point_id_acceptable(id@),
{
    id.as_str().unicode_len() == 0 || is_all_ascii_digits(id.as_str())
}

/// Refuses a schema whose current or voltage point ids hold anything but digits.
pub fn check_schema_point_ids(strings: &[StringConnectionUpdate]) -> (r: Result<(), ServiceError>)
    ensures
        schema_point_ids_acceptable(strings@) ==> r is Ok,
        !schema_point_ids_acceptable(strings@) ==> is_configuration_error(
            r,
            "Akım ve gerilim point ID alanları yalnızca rakam içerebilir"@,
        ),
{
    let mut i: usize = 0;
    while i < strings.len()
        invariant
            i <= strings@.len(),
            forall|k: int| 0 <= k < i ==> point_id_acceptable(#[trigger] strings@[k].current_point_id@)
                && point_id_acceptable(strings@[k].voltage_point_id@),
        decreases strings@.len() - i,
    {
        let item = &strings[i];
        let current_ok = acceptable(&item.current_point_id);
        let voltage_ok = acceptable(&item.voltage_point_id);
        if !current_ok || !voltage_ok {
            return Err(ServiceError::Configuration(String::from_str("Akım ve gerilim point ID alanları yalnızca rakam içerebilir")));
        }
        assert(*item == strings@[i as int]);
        assert forall|k: int| 0 <= k < i + 1 implies point_id_acceptable(#[trigger] strings@[k].current_point_id@)
            && point_id_acceptable(strings@[k].voltage_point_id@) by {
            if k == i as int {
                assert(strings@[k] == *item);
            }
        }
        i = i + 1;
    }
    Ok(())
}

} // verus!
