//! The bounded-concurrency fetch pipeline. Page-count discovery and
//! page fetching each run through their own scheduler instance with
//! its own configurable cap; the scheduler hands out one task at a
//! time and never lets more tasks be in flight than its cap allows.
//! The network work itself happens outside: a caller takes a task,
//! performs it, and reports back — an empty result for a failed page,
//! which isolates the failure without stopping the run.
use vstd::prelude::*;

use crate::text::all_digits;
use crate::text::dec_rep;
use crate::text::digits_val;
use crate::text::str_chars;
use crate::text::trim_chars;
use crate::text::trim_spec;
use crate::text::u64_to_string;

verus! {

// ---------------------------------------------------------------------
// Page-count discovery decisions
// ---------------------------------------------------------------------

/// The page count read from a partition's pagination links: with
/// fewer than three links there is no pagination, so one page; else
/// the third link from the end names the last page. A link that does
/// not parse never blocks the run — it under-counts to one page.
pub open spec fn page_count_spec(texts: Seq<Seq<char>>) -> int {
    if texts.len() < 3 {
        1
    } else {
        let t = texts[texts.len() - 3];
        if t.len() > 0 && all_digits(t) && digits_val(t) <= u32::MAX {
            digits_val(t) as int
        } else {
            1
        }
    }
}

pub fn page_count_from_links(texts: &Vec<String>) -> (r: u32)
    ensures
        r == page_count_spec(texts@.map_values(|s: String| s@)),
{
    let ghost view = texts@.map_values(|s: String| s@);
    if texts.len() < 3 {
        return 1;
    }
    let t = &texts[texts.len() - 3];
    let chars = str_chars(t.as_str());
    proof {
        assert(view[view.len() - 3] == texts@[texts@.len() - 3]@);
    }
    match crate::text::parse_u64_chars(&chars) {
        Some(n) => {
            if n <= 0xffffffff {
                n as u32
            } else {
                1
            }
        },
        None => 1,
    }
}

/// The page count read from a catalogue section's pagination list:
/// the largest number among the links, at least one. Each link is
/// trimmed before parsing; links that do not parse are ignored.
pub open spec fn max_page_spec(texts: Seq<Seq<char>>) -> int
    decreases texts.len(),
{
    if texts.len() == 0 {
        1
    } else {
        let rest = max_page_spec(texts.drop_last());
        let t = trim_spec(texts.last());
        if t.len() > 0 && all_digits(t) && digits_val(t) <= u32::MAX && digits_val(t) > rest {
            digits_val(t) as int
        } else {
            rest
        }
    }
}

pub fn max_page_from_links(texts: &Vec<String>) -> (r: u32)
    ensures
        r == max_page_spec(texts@.map_values(|s: String| s@)),
{
    let ghost view = texts@.map_values(|s: String| s@);
    let mut max_page: u32 = 1;
    let mut i: usize = 0;
    proof {
        assert(view.subrange(0, 0) =~= Seq::<Seq<char>>::empty());
    }
    while i < texts.len()
        invariant
            view == texts@.map_values(|s: String| s@),
            view.len() == texts@.len(),
            i <= texts@.len(),
            1 <= max_page,
            max_page == max_page_spec(view.subrange(0, i as int)),
        decreases texts@.len() - i,
    {
        let chars0 = str_chars(texts[i].as_str());
        let chars = trim_chars(&chars0);
        proof {
            let cur = view.subrange(0, i + 1 as int);
            assert(cur.drop_last() =~= view.subrange(0, i as int));
            assert(cur.last() == view[i as int]);
            assert(view[i as int] == texts@[i as int]@);
        }
        match crate::text::parse_u64_chars(&chars) {
            Some(n) => {
                if n <= 0xffffffff && n > max_page as u64 {
                    max_page = n as u32;
                }
            },
            None => {},
        }
        i = i + 1;
    }
    proof {
        assert(view.subrange(0, view.len() as int) =~= view);
    }
    max_page
}

// ---------------------------------------------------------------------
// The catalogue walker for the paginated storefront
// ---------------------------------------------------------------------

/// Walks the storefront catalogue: one partition per converted-cost
/// bucket, pages numbered from one.
pub struct DragonslairScraper {
    pub url: String,
    pub cmcs_available: Vec<u8>,
}

/// The partition keys probed when the caller names none.
pub open spec fn default_cmcs_spec() -> Seq<u8> {
    seq![0u8, 1u8, 2u8, 3u8, 4u8, 5u8, 6u8, 7u8, 8u8, 9u8, 10u8, 11u8, 12u8, 13u8, 15u8, 16u8]
}

/// The fixed middle part of every catalogue page address.
pub open spec fn catalogue_path_spec() -> Seq<char> {
    "/product/magic/card-singles/store:kungsholmstorg/cmc-"@
}

/// The address of one catalogue page.
pub open spec fn page_url_spec(base: Seq<char>, cmc: u8, page: int) -> Seq<char> {
    base + catalogue_path_spec() + dec_rep(cmc as nat) + "/"@ + dec_rep(page as nat)
}

impl DragonslairScraper {
    pub fn new(url: &str, cmcs_available: Option<Vec<u8>>) -> (r: DragonslairScraper)
        ensures
            r.url@ == url@,
            match cmcs_available {
                Some(v) => r.cmcs_available == v,
                None => r.cmcs_available@ == default_cmcs_spec(),
            },
    {
        let cmcs = match cmcs_available {
            Some(v) => v,
            None => {
                let mut v: Vec<u8> = Vec::new();
                v.push(0);
                v.push(1);
                v.push(2);
                v.push(3);
                v.push(4);
                v.push(5);
                v.push(6);
                v.push(7);
                v.push(8);
                v.push(9);
                v.push(10);
                v.push(11);
                v.push(12);
                v.push(13);
                v.push(15);
                v.push(16);
                proof {
                    assert(v@ =~= default_cmcs_spec());
                }
                v
            },
        };
        DragonslairScraper { url: String::from_str(url), cmcs_available: cmcs }
    }

    fn page_url(&self, cmc: u8, page: u32) -> (r: String)
        ensures
            r@ == page_url_spec(self.url@, cmc, page as int),
    {
        let mut r = self.url.clone();
        r.append("/product/magic/card-singles/store:kungsholmstorg/cmc-");
        let c = u64_to_string(cmc as u64);
        r.append(c.as_str());
        r.append("/");
        let p = u64_to_string(page as u64);
        r.append(p.as_str());
        r
    }

    /// The address whose pagination links reveal a partition's page
    /// count (its page zero).
    pub fn discovery_url(&self, cmc: u8) -> (r: String)
        ensures
            r@ == page_url_spec(self.url@, cmc, 0),
    {
        self.page_url(cmc, 0)
    }

    /// The addresses of every page of one partition, pages one through
    /// the discovered count.
    pub fn generate_card_urls(&self, page_count: u32, cmc: u8) -> (r: Vec<String>)
        ensures
            r@.len() == page_count,
            forall|i: int|
                0 <= i < r@.len() ==> (#[trigger] r@[i])@ == page_url_spec(self.url@, cmc, i + 1),
    {
        let mut r: Vec<String> = Vec::new();
        let mut page: u64 = 1;
        while page <= page_count as u64
            invariant
                1 <= page,
                page <= page_count as u64 + 1,
                r@.len() == page - 1,
                forall|i: int|
                    0 <= i < r@.len() ==> (#[trigger] r@[i])@ == page_url_spec(
                        self.url@,
                        cmc,
                        i + 1,
                    ),
            decreases page_count as u64 + 1 - page,
        {
            r.push(self.page_url(cmc, page as u32));
            page = page + 1;
        }
        r
    }
}

// ---------------------------------------------------------------------
// The bounded-concurrency scheduler
// ---------------------------------------------------------------------

/// Dispatches tasks under a concurrency cap. `T` is the task (a page
/// address, a partition key); `R` is what a completed task yields.
/// The number of tasks handed out and not yet reported back never
/// exceeds the cap.
pub struct FetchScheduler<T, R> {
    /// The cap on simultaneously in-flight tasks.
    pub limit: usize,
    /// Tasks handed out and not yet reported back.
    pub in_flight: usize,
    /// Tasks not yet handed out.
    pub pending: Vec<T>,
    /// What completed tasks yielded, in completion order.
    pub results: Vec<R>,
}

impl<T, R> FetchScheduler<T, R> {
    /// The concurrency bound: never more in-flight tasks than the cap.
    pub open spec fn wf(&self) -> bool {
        self.limit >= 1 && self.in_flight <= self.limit
    }

    pub fn new(limit: usize, pending: Vec<T>) -> (r: FetchScheduler<T, R>)
        requires
            limit >= 1,
        ensures
            r.wf(),
            r.limit == limit,
            r.in_flight == 0,
            r.pending == pending,
            r.results@.len() == 0,
    {
        FetchScheduler { limit, in_flight: 0, pending, results: Vec::new() }
    }

    /// Hands out the next task when the cap allows and work remains;
    /// the cap holds afterwards in either case.
    pub fn start_next(&mut self) -> (r: Option<T>)
        requires
            old(self).wf(),
        ensures
            final(self).wf(),
            final(self).in_flight <= final(self).limit,
            final(self).limit == old(self).limit,
            final(self).results == old(self).results,
            r is Some <==> old(self).in_flight < old(self).limit && old(self).pending@.len() > 0,
            r is Some ==> final(self).in_flight == old(self).in_flight + 1 && final(self).pending@
                == old(self).pending@.drop_last() && r->0 == old(self).pending@.last(),
            r is None ==> *final(self) == *old(self),
    {
        if self.in_flight < self.limit && self.pending.len() > 0 {
            let task = self.pending.pop().unwrap();
            self.in_flight = self.in_flight + 1;
            Some(task)
        } else {
            None
        }
    }

    /// Reports a task back with what it yielded — an empty vector for
    /// a failed page, which contributes no records and stops nothing.
    pub fn complete(&mut self, mut fetched: Vec<R>)
        requires
            old(self).wf(),
            old(self).in_flight >= 1,
        ensures
            final(self).wf(),
            final(self).in_flight == old(self).in_flight - 1,
            final(self).limit == old(self).limit,
            final(self).pending == old(self).pending,
            final(self).results@ == old(self).results@ + fetched@,
    {
        self.results.append(&mut fetched);
        self.in_flight = self.in_flight - 1;
    }

    /// Whether the run is over: nothing pending, nothing in flight.
    pub fn is_done(&self) -> (r: bool)
        ensures
            r == (self.pending@.len() == 0 && self.in_flight == 0),
    {
        self.pending.len() == 0 && self.in_flight == 0
    }
}

} // verus!
