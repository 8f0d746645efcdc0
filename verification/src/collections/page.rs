//! A materialized page of items with page-number metadata.
use vstd::prelude::*;
use crate::text_support::{decimal_chars, owned, push_decimal};

verus! {

/// Default page size used by `Page::new`.
pub const DEFAULT_PAGE_SIZE: u64 = 10;

/// Error returned by `Page` constructors.
#[derive(Debug, Clone, Copy, PartialEq, Eq, Structural)]
#[non_exhaustive]
pub enum PageError {
    /// Page size must be greater than zero.
    InvalidPageSize {
        /// Invalid page size supplied by the caller.
        value: u64,
    },
}

impl PageError {
    /// Human-readable description of the failure.
    pub fn message(&self) -> (m: String)
        ensures
            m@ == match *self {
                PageError::InvalidPageSize { value } => "page_size must be positive, got "@
                    + decimal_chars(value as nat),
            },
    {
        match *self {
            PageError::InvalidPageSize { value } => {
                let mut m = owned("page_size must be positive, got ");
                push_decimal(&mut m, value as u128);
                m
            },
        }
    }
}

/// A materialized page of items with page-number metadata.
///
/// Page numbers are zero-based. `total_items` is the number of matching items
/// across all pages, not the number of items in this page. The page size is
/// always positive.
#[derive(Debug, PartialEq, Eq)]
pub struct Page<T> {
    items: Vec<T>,
    page_number: u64,
    page_size: u64,
    total_items: u64,
}

impl<T: Clone> Clone for Page<T> {
    fn clone(&self) -> (r: Self) {
        proof {
            use_type_invariant(self);
        }
        Page {
            items: self.items.clone(),
            page_number: self.page_number,
            page_size: self.page_size,
            total_items: self.total_items,
        }
    }
}

/// What a page holds.
pub struct PageView<T> {
    pub items: Seq<T>,
    pub page_number: u64,
    pub page_size: u64,
    pub total_items: u64,
}

impl<T> View for Page<T> {
    type V = PageView<T>;

    closed spec fn view(&self) -> PageView<T> {
        PageView {
            items: self.items@,
            page_number: self.page_number,
            page_size: self.page_size,
            total_items: self.total_items,
        }
    }
}

/// Number of pages of `page_size` items needed for `total_items` items.
pub open spec fn pages_needed(total_items: nat, page_size: nat) -> nat {
    if total_items == 0 {
        0
    } else {
        ((total_items - 1) as nat / page_size + 1) as nat
    }
}

impl<T> Page<T> {
    #[verifier::type_invariant]
    spec fn well_formed(self) -> bool {
        self.page_size > 0
    }

    /// Creates the first page using `DEFAULT_PAGE_SIZE`.
    ///
    /// Never fails, since the default page size is positive; it returns
    /// `Result` to match `Page::with_meta`.
    pub fn new(items: Vec<T>, total_items: u64) -> (r: Result<Self, PageError>)
        ensures
            r matches Ok(p) && p@ == (PageView {
                items: items@,
                page_number: 0,
                page_size: DEFAULT_PAGE_SIZE,
                total_items,
            }),
    {
        Self::with_meta(items, 0, DEFAULT_PAGE_SIZE, total_items)
    }

    /// Creates a page with explicit page-number metadata.
    ///
    /// Fails with `InvalidPageSize` exactly when `page_size` is zero.
    pub fn with_meta(items: Vec<T>, page_number: u64, page_size: u64, total_items: u64) -> (r: Result<
        Self,
        PageError,
    >)
        ensures
            page_size == 0 ==> r == Err::<Self, PageError>(PageError::InvalidPageSize { value: 0 }),
            page_size > 0 ==> (r matches Ok(p) && p@ == (PageView {
                items: items@,
                page_number,
                page_size,
                total_items,
            })),
    {
        if page_size == 0 {
            return Err(PageError::InvalidPageSize { value: page_size });
        }
        Ok(Page { items, page_number, page_size, total_items })
    }

    /// Returns the items in this page.
    pub fn items(&self) -> (r: &[T])
        ensures
            r@ == self@.items,
    {
        self.items.as_slice()
    }

    /// Consumes the page and returns its items.
    pub fn into_items(self) -> (r: Vec<T>)
        ensures
            r@ == self@.items,
    {
        self.items
    }

    /// Returns this page's zero-based page number.
    pub fn page_number(&self) -> (r: u64)
        ensures
            r == self@.page_number,
    {
        self.page_number
    }

    /// Returns the requested page size.
    pub fn page_size(&self) -> (r: u64)
        ensures
            r == self@.page_size,
            r > 0,
    {
        proof {
            use_type_invariant(self);
        }
        self.page_size
    }

    /// Returns the total matching item count across all pages.
    pub fn total_items(&self) -> (r: u64)
        ensures
            r == self@.total_items,
    {
        self.total_items
    }

    /// Returns the total page count implied by `total_items` and `page_size`.
    ///
    /// Empty result sets have zero pages; non-empty ones round up to include a
    /// final partial page: the pages hold every item, and one page fewer
    /// would not.
    pub fn total_pages(&self) -> (r: u64)
        ensures
            r == pages_needed(self@.total_items as nat, self@.page_size as nat),
            r * self@.page_size >= self@.total_items,
            r > 0 ==> (r - 1) * self@.page_size < self@.total_items,
    {
        proof {
            use_type_invariant(self);
        }
        let size = self.page_size;
        let total = self.total_items;
        if total == 0 {
            0
        } else {
            let q = (total - 1) / size;
            proof {
                let t: int = total - 1;
                let z: int = size as int;
                let qi: int = q as int;
                assert(qi * z <= t < (qi + 1) * z) by (nonlinear_arith)
                    requires
                        qi == t / z,
                        z > 0,
                        t >= 0,
                ;
                assert((qi + 1) * z == qi * z + z) by (nonlinear_arith);
            }
            q + 1
        }
    }

    /// Returns the number of items in this page.
    pub fn len(&self) -> (r: usize)
        ensures
            r == self@.items.len(),
    {
        self.items.len()
    }

    /// Returns `true` when this page contains no items.
    pub fn is_empty(&self) -> (r: bool)
        ensures
            r == (self@.items.len() == 0),
    {
        self.items.len() == 0
    }
}

} // verus!
