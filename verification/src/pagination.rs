//! The paginated-query primitive used by every listing operation.
//!
//! One page is fetched in a single round trip: the query is wrapped so
//! that each row carries a window-function count of all rows, limited to
//! one row more than the page size. The post-processing step then drops
//! the probe row, derives whether more pages exist, and reads the total
//! from the count column — so a page always knows the whole result
//! size without a second counting query, at the cost of one extra
//! fetched row.

use vstd::prelude::*;

verus! {

/// Which page of a listing is asked for: an optional 1-based page
/// number and the page size.
#[derive(Clone, Copy, Debug, PartialEq, Eq)]
pub struct PaginationOptions {
    /// 1-based page number; when absent the window starts at the first
    /// row.
    pub page: Option<usize>,
    /// Rows per page.
    pub per_page: usize,
}

impl PaginationOptions {
    /// Options the machine can evaluate: the page number is 1-based and
    /// the window's end fits in a machine word.
    pub open spec fn wf(self) -> bool {
        match self.page {
            Some(p) => 1 <= p && (p - 1) * self.per_page + self.per_page + 1 <= usize::MAX,
            None => self.per_page + 1 <= usize::MAX,
        }
    }

    /// The first row index of the asked page.
    pub open spec fn offset_int(self) -> int {
        match self.page {
            Some(p) => (p - 1) * self.per_page,
            None => 0,
        }
    }

    /// The first row index of the asked page, when a page was given.
    pub fn offset(&self) -> (r: Option<usize>)
        requires
            self.wf(),
        ensures
            r.is_some() == self.page.is_some(),
            r.is_some() ==> r->0 == self.offset_int(),
            self.page.is_none() ==> self.offset_int() == 0,
    {
        match self.page {
            Some(p) => Some((p - 1) * self.per_page),
            None => None,
        }
    }

    /// How many rows a listing without explicit pagination fetches.
    pub fn limit(&self) -> (r: usize)
        ensures
            r == self.per_page,
    {
        self.per_page
    }
}

/// One page of records, with the total row count of the whole listing
/// and whether further pages exist.
#[derive(Debug, PartialEq, Eq)]
pub struct Paginated<T> {
    pub records: Vec<T>,
    pub total: i64,
    pub has_more: bool,
    pub options: Option<PaginationOptions>,
}

/// One fetched row together with the window-function count column.
#[derive(Debug, PartialEq, Eq)]
pub struct CountedOutput<T> {
    pub record: T,
    pub total_count: i64,
}

/// Post-processes one fetched window of `per_page + 1` rows, each
/// carrying the total count: drops the probe row beyond the page size,
/// derives `has_more` from its presence, and takes `total` from the
/// count column of the first remaining row (zero when the page is
/// empty).
pub fn compute_paginated<U>(
    records_and_total: Vec<(U, i64)>,
    options: Option<PaginationOptions>,
) -> (r: Paginated<U>)
    ensures
        r.has_more == (match options {
            Some(o) => records_and_total@.len() > o.per_page,
            None => false,
        }),
        ({
            let kept = if r.has_more {
                records_and_total@.drop_last()
            } else {
                records_and_total@
            };
            &&& r.total == (if kept.len() > 0 {
                kept[0].1
            } else {
                0
            })
            &&& r.records@ == kept.map_values(|p: (U, i64)| p.0)
            &&& r.options == options
        }),
{
    let ghost input = records_and_total@;
    let mut records_and_total = records_and_total;
    let has_more = match &options {
        Some(o) => records_and_total.len() > o.per_page,
        None => false,
    };
    if has_more {
        records_and_total.pop();
    }
    let ghost kept = records_and_total@;
    proof {
        if has_more {
            assert(kept =~= input.drop_last());
        }
    }
    let total: i64 = if records_and_total.len() > 0 {
        records_and_total[0].1
    } else {
        0
    };
    let mut records: Vec<U> = Vec::new();
    proof {
        assert(records@ =~= kept.take(0).map_values(|p: (U, i64)| p.0));
    }
    while records_and_total.len() > 0
        invariant
            records_and_total@ == kept.skip(records@.len() as int),
            records@.len() <= kept.len(),
            records@ == kept.take(records@.len() as int).map_values(|p: (U, i64)| p.0),
        decreases records_and_total.len(),
    {
        let ghost k = records@.len() as int;
        let (record, _count) = records_and_total.remove(0);
        proof {
            assert(kept.skip(k)[0] == kept[k]);
        }
        records.push(record);
        proof {
            assert(records_and_total@ =~= kept.skip(k + 1));
            assert(records@ =~= kept.take(k + 1).map_values(|p: (U, i64)| p.0)) by {
                let f = |p: (U, i64)| p.0;
                assert forall|j: int| 0 <= j < k + 1 implies records@[j] == kept.take(k + 1).map_values(
                    f,
                )[j] by {
                    assert(kept.take(k + 1)[j] == kept[j]);
                    if j < k {
                        assert(records@[j] == kept.take(k).map_values(f)[j]);
                        assert(kept.take(k)[j] == kept[j]);
                    } else {
                        assert(records@[k] == kept[k].0);
                    }
                }
            }
        }
    }
    proof {
        assert(kept.take(kept.len() as int) =~= kept);
    }
    Paginated { records, total, has_more, options }
}

/// One paginated load over a materialized listing, as the relational
/// engine performs it: fetch the window of `per_page + 1` rows starting
/// at the page's offset, each row carrying the total count, then
/// post-process with [`compute_paginated`].
///
/// The contract is the pagination law: with N stored records, page size
/// P, and offset F = (k-1)·P for page k, the page holds the records
/// from index min(F, N) up to min(F + P, N) — that is
/// min(P, max(0, N - F)) records; `has_more` holds exactly when
/// N > F + P (that is N > k·P); and `total` reports N on every page
/// that holds at least one record (and 0 on a page past the end, where
/// the fetched window was empty).
pub fn load_with_pagination<T>(records: Vec<T>, options: &PaginationOptions) -> (r: Paginated<T>)
    requires
        options.wf(),
        options.per_page >= 1,
        records@.len() <= 0x7fff_ffff_ffff_ffff,
    ensures
        ({
            let n = records@.len() as int;
            let f = options.offset_int();
            let p = options.per_page as int;
            let start = if f < n {
                f
            } else {
                n
            };
            let end = if f + p < n {
                f + p
            } else {
                n
            };
            &&& r.records@ == records@.subrange(start, end)
            &&& r.records@.len() == (if p < n - f {
                p
            } else if n - f > 0 {
                n - f
            } else {
                0
            })
            &&& r.has_more == (n > f + p)
            &&& f < n ==> r.total == n
            &&& f >= n ==> r.total == 0
            &&& r.options == Some(*options)
        }),
{
    let ghost input = records@;
    let total_rows = records.len();
    let off = match options.offset() {
        Some(o) => o,
        None => 0,
    };
    let mut v = records;
    let start = if off < v.len() {
        off
    } else {
        v.len()
    };
    let mut window = v.split_off(start);
    window.truncate(options.per_page + 1);
    let ghost winv = window@;
    let total_count: i64 = total_rows as i64;
    let mut counted: Vec<(T, i64)> = Vec::new();
    proof {
        assert(counted@ =~= Seq::<(T, i64)>::empty());
    }
    while window.len() > 0
        invariant
            counted@.len() + window@.len() == winv.len(),
            window@ == winv.skip(counted@.len() as int),
            forall|j: int|
                0 <= j < counted@.len() ==> #[trigger] counted@[j] == (winv[j], total_count),
        decreases window.len(),
    {
        let ghost k = counted@.len() as int;
        let x = window.remove(0);
        proof {
            assert(winv.skip(k)[0] == winv[k]);
        }
        counted.push((x, total_count));
        proof {
            assert(window@ =~= winv.skip(k + 1));
        }
    }
    let out = compute_paginated(counted, Some(*options));
    proof {
        let n = input.len() as int;
        let f = options.offset_int();
        let p = options.per_page as int;
        let wstart = start as int;
        let wend = if f + p + 1 < n {
            f + p + 1
        } else {
            n
        };
        assert(winv =~= input.subrange(wstart, if wstart + p + 1 < n {
            wstart + p + 1
        } else {
            n
        }));
        let kept = if out.has_more {
            counted@.drop_last()
        } else {
            counted@
        };
        let rstart = if f < n {
            f
        } else {
            n
        };
        let rend = if f + p < n {
            f + p
        } else {
            n
        };
        assert(out.records@ =~= input.subrange(rstart, rend)) by {
            assert forall|j: int| 0 <= j < kept.len() implies out.records@[j] == kept.map_values(
                |q: (T, i64)| q.0,
            )[j] by {}
            assert forall|j: int| 0 <= j < kept.len() implies kept[j] == counted@[j] by {}
        }
    }
    out
}

} // verus!
