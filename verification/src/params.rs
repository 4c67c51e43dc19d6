//! List-query parameters: paging bounds and ordering. A `ListParams` value is
//! also the cache key for list-shaped queries, so logically equal parameter
//! sets must address the same cache entry.

use vstd::prelude::*;

use crate::cache::KeyEq;

verus! {

/// Sort direction of a list query.
#[derive(Clone, Copy, PartialEq, Eq, Structural, Debug)]
pub enum Order {
    Asc,
    Desc,
}

impl Order {
    /// The keyword this direction renders to in an order-by clause.
    pub open spec fn spec_sql(self) -> Seq<char> {
        match self {
            Order::Asc => "ASC"@,
            Order::Desc => "DESC"@,
        }
    }

    pub fn as_str(self) -> (r: &'static str)
        ensures
            r@ == self.spec_sql(),
    {
        match self {
            Order::Asc => "ASC",
            Order::Desc => "DESC",
        }
    }
}

/// Paging, filtering and sorting parameters of a list query.
#[derive(Debug)]
pub struct ListParams {
    pub limit: Option<i64>,
    pub offset: Option<i64>,
    pub order_by: Option<String>,
    pub order: Option<Order>,
}

impl View for ListParams {
    type V = (Option<i64>, Option<i64>, Option<Seq<char>>, Option<Order>);

    open spec fn view(&self) -> (Option<i64>, Option<i64>, Option<Seq<char>>, Option<Order>) {
        (
            self.limit,
            self.offset,
            match self.order_by {
                Some(s) => Some(s@),
                None => None,
            },
            self.order,
        )
    }
}

impl ListParams {
    pub fn new(
        limit: Option<i64>,
        offset: Option<i64>,
        order_by: Option<String>,
        order: Option<Order>,
    ) -> (r: Self)
        ensures
            r.limit == limit,
            r.offset == offset,
            (match order_by {
                Some(s) => r.order_by is Some && r.order_by.unwrap()@ == s@,
                None => r.order_by is None,
            }),
            r.order == order,
    {
        ListParams { limit, offset, order_by, order }
    }

    /// An exact duplicate: the copy has the same model as the original.
    pub fn dup(&self) -> (r: Self)
        ensures
            r@ == self@,
    {
        ListParams {
            limit: self.limit,
            offset: self.offset,
            order_by: match &self.order_by {
                Some(s) => Some(s.clone()),
                None => None,
            },
            order: self.order,
        }
    }

    /// The order-by clause owed for these parameters: the requested column
    /// followed by the sort keyword, descending when no direction was given;
    /// no clause at all when no column was requested.
    pub fn get_order_by(&self) -> (r: Option<String>)
        ensures
            match self.order_by {
                Some(ob) => r is Some && r.unwrap()@ == ob@ + " "@ + (match self.order {
                    Some(o) => o.spec_sql(),
                    None => Order::Desc.spec_sql(),
                }),
                None => r is None,
            },
    {
        match &self.order_by {
            Some(ob) => {
                let mut s = ob.clone();
                s.append(" ");
                match &self.order {
                    Some(o) => s.append((*o).as_str()),
                    None => s.append(Order::Desc.as_str()),
                }
                Some(s)
            },
            None => None,
        }
    }
}

impl KeyEq for ListParams {
    type Model = (Option<i64>, Option<i64>, Option<Seq<char>>, Option<Order>);

    open spec fn model(&self) -> (Option<i64>, Option<i64>, Option<Seq<char>>, Option<Order>) {
        self@
    }

    fn key_eq(&self, other: &Self) -> (r: bool)
        ensures
            r == (self.model() == other.model()),
    {
        let limit_eq = match (&self.limit, &other.limit) {
            (Some(a), Some(b)) => *a == *b,
            (None, None) => true,
            _ => false,
        };
        let offset_eq = match (&self.offset, &other.offset) {
            (Some(a), Some(b)) => *a == *b,
            (None, None) => true,
            _ => false,
        };
        let order_by_eq = match (&self.order_by, &other.order_by) {
            (Some(a), Some(b)) => *a == *b,
            (None, None) => true,
            _ => false,
        };
        let order_eq = match (&self.order, &other.order) {
            (Some(a), Some(b)) => *a == *b,
            (None, None) => true,
            _ => false,
        };
        limit_eq && offset_eq && order_by_eq && order_eq
    }
}

impl KeyEq for (i32, ListParams) {
    type Model = (i32, (Option<i64>, Option<i64>, Option<Seq<char>>, Option<Order>));

    open spec fn model(&self) -> (
        i32,
        (Option<i64>, Option<i64>, Option<Seq<char>>, Option<Order>),
    ) {
        (self.0, self.1@)
    }

    fn key_eq(&self, other: &Self) -> (r: bool)
        ensures
            r == (self.model() == other.model()),
    {
        self.0 == other.0 && self.1.key_eq(&other.1)
    }
}

} // verus!
