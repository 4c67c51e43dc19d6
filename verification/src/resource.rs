//! Decisions that the resource handlers make around storage calls: the
//! location path of a saved resource, the ownership check that guards writes,
//! the quantity change a transaction applies, and the defaults filled into a
//! newly posted shop.

use vstd::prelude::*;

use crate::problem::{forbidden_permission, Problem};
use crate::text::{append_decimal_i32, spec_decimal_int};

verus! {

/// The path a saved resource is addressed under: the resource name
/// pluralized, a slash, and the primary key.
pub fn resource_path(resource_name: &str, pk: i32) -> (r: String)
    ensures
        r@ == resource_name@ + "s/"@ + spec_decimal_int(pk as int),
{
    let mut s = resource_name.to_owned();
    s.append("s/");
    append_decimal_i32(pk, &mut s);
    proof {
        assert(s@ =~= resource_name@ + "s/"@ + spec_decimal_int(pk as int));
    }
    s
}

/// A write to a resource is allowed only to the owner it belongs to; any
/// other authenticated owner is refused with the permission problem.
pub fn authorize_owner(existing_owner_id: i32, requester_id: i32) -> (r: Result<(), Problem>)
    ensures
        existing_owner_id == requester_id ==> r is Ok,
        existing_owner_id != requester_id ==> (match r {
            Err(p) => p@.status == 403 && p@.detail == Some(
                "Api-Key does not have required permissions"@,
            ),
            Ok(_) => false,
        }),
{
    if existing_owner_id == requester_id {
        Ok(())
    } else {
        Err(forbidden_permission())
    }
}

/// The change a transaction applies to the merchandise quantity: a sale adds
/// the transacted quantity to the shop's stock, a purchase removes it.
pub fn transaction_quantity_delta(is_sell: bool, quantity: i32) -> (r: i32)
    requires
        quantity > i32::MIN,
    ensures
        is_sell ==> r == quantity,
        !is_sell ==> r == -quantity,
{
    if is_sell {
        quantity
    } else {
        -quantity
    }
}

/// The defaults filled into a newly posted shop: no gold, a general store,
/// the standard vendor keywords, and keyword exclusion on.
pub fn shop_create_defaults(
    gold: Option<i32>,
    shop_type: Option<String>,
    vendor_keywords: Option<Vec<String>>,
    vendor_keywords_exclude: Option<bool>,
) -> (r: (i32, String, Vec<String>, bool))
    ensures
        (match gold {
            Some(g) => r.0 == g,
            None => r.0 == 0,
        }),
        (match shop_type {
            Some(t) => r.1 == t,
            None => r.1@ == "general_store"@,
        }),
        (match vendor_keywords {
            Some(v) => r.2 == v,
            None => r.2@.len() == 2 && r.2@[0]@ == "VendorItemKey"@ && r.2@[1]@
                == "VendorNoSale"@,
        }),
        (match vendor_keywords_exclude {
            Some(e) => r.3 == e,
            None => r.3 == true,
        }),
{
    let gold_out: i32 = match gold {
        Some(g) => g,
        None => 0,
    };
    let type_out: String = match shop_type {
        Some(t) => t,
        None => "general_store".to_owned(),
    };
    let keywords_out: Vec<String> = match vendor_keywords {
        Some(v) => v,
        None => {
            let mut v: Vec<String> = Vec::new();
            v.push("VendorItemKey".to_owned());
            v.push("VendorNoSale".to_owned());
            v
        },
    };
    let exclude_out: bool = match vendor_keywords_exclude {
        Some(e) => e,
        None => true,
    };
    (gold_out, type_out, keywords_out, exclude_out)
}

} // verus!
