use vstd::prelude::*;
use crate::text::{signed_decimal, push_signed_decimal, lemma_signed_decimal_injective};

verus! {

/// One day of the yearly holiday feed (NateScarlet/holiday-cn), with the
/// fields that the import reads; a field that is missing, or of another JSON
/// type than expected, is `None`.
pub struct FeedDay {
    /// `"date"`: the day, `YYYY-MM-DD`.
    pub date: Option<String>,
    /// `"name"`: the name of the holiday.
    pub name: Option<String>,
    /// `"isOffDay"`: `true` for a day off, `false` for a make-up working day.
    pub is_off_day: Option<bool>,
}

/// The feed document of one year: its `"days"` array, `None` when the
/// document has no such array.
pub struct FeedDocument {
    pub days: Option<Vec<FeedDay>>,
}

/// An imported holiday: date, type (`"rest"` or `"overtime"`) and note.
pub type HolidayEntry = (String, String, String);

pub open spec fn entry_view(e: HolidayEntry) -> (Seq<char>, Seq<char>, Seq<char>) {
    (e.0@, e.1@, e.2@)
}

pub open spec fn entries_view(v: Seq<HolidayEntry>) -> Seq<(Seq<char>, Seq<char>, Seq<char>)> {
    v.map_values(|e: HolidayEntry| entry_view(e))
}

pub open spec fn text_or_empty(o: Option<String>) -> Seq<char> {
    match o {
        Some(s) => s@,
        None => Seq::empty(),
    }
}

pub open spec fn rest_type() -> Seq<char> {
    "rest"@
}

pub open spec fn overtime_type() -> Seq<char> {
    "overtime"@
}

/// The holiday type of a feed day: a day that does not say otherwise is a
/// day off.
pub open spec fn day_type(day: FeedDay) -> Seq<char> {
    let off = match day.is_off_day {
        Some(b) => b,
        None => true,
    };
    if off {
        rest_type()
    } else {
        overtime_type()
    }
}

/// The entry that a feed day gives: none when it has no date.
pub open spec fn day_entry(day: FeedDay) -> Option<(Seq<char>, Seq<char>, Seq<char>)> {
    let date = text_or_empty(day.date);
    if date.len() == 0 {
        None
    } else {
        Some((date, day_type(day), text_or_empty(day.name)))
    }
}

/// The entries of a list of feed days, in feed order.
pub open spec fn days_entries(days: Seq<FeedDay>) -> Seq<(Seq<char>, Seq<char>, Seq<char>)>
    decreases days.len(),
{
    if days.len() == 0 {
        Seq::empty()
    } else {
        let rest = days_entries(days.drop_last());
        match day_entry(days.last()) {
            Some(e) => rest.push(e),
            None => rest,
        }
    }
}

/// The entries of a feed document; none when it has no `"days"` array.
pub open spec fn document_entries(doc: FeedDocument) -> Seq<(Seq<char>, Seq<char>, Seq<char>)> {
    match doc.days {
        Some(days) => days_entries(days@),
        None => Seq::empty(),
    }
}

fn copy_or_empty(o: &Option<String>) -> (s: String)
    ensures
        s@ == text_or_empty(*o),
{
    match o {
        Some(t) => t.clone(),
        None => String::new(),
    }
}

/// The entry of one feed day, if it has a date.
pub fn entry_of_day(day: &FeedDay) -> (r: Option<HolidayEntry>)
    ensures
        match r {
            Some(e) => day_entry(*day) == Some(entry_view(e)),
            None => day_entry(*day) is None,
        },
{
    let date = copy_or_empty(&day.date);
    if date.unicode_len() == 0 {
        return None;
    }
    let off = match day.is_off_day {
        Some(b) => b,
        None => true,
    };
    proof {
        reveal_strlit("rest");
        reveal_strlit("overtime");
    }
    let htype = if off {
        String::from_str("rest")
    } else {
        String::from_str("overtime")
    };
    let note = copy_or_empty(&day.name);
    Some((date, htype, note))
}

/// The holiday entries of the feed days, in feed order, skipping days
/// without a date.
pub fn holiday_entries(days: &Vec<FeedDay>) -> (v: Vec<HolidayEntry>)
    ensures
        entries_view(v@) == days_entries(days@),
{
    let mut v: Vec<HolidayEntry> = Vec::new();
    let mut i: usize = 0;
    while i < days.len()
        invariant
            i <= days@.len(),
            entries_view(v@) == days_entries(days@.subrange(0, i as int)),
        decreases days@.len() - i,
    {
        let r = entry_of_day(&days[i]);
        let ghost before = v@;
        assert(days@.subrange(0, i + 1).drop_last() =~= days@.subrange(0, i as int));
        assert(days@.subrange(0, i + 1).last() == days@[i as int]);
        match r {
            Some(e) => {
                v.push(e);
                assert(entries_view(v@) =~= entries_view(before).push(entry_view(e)));
            },
            None => {},
        }
        i = i + 1;
    }
    assert(days@.subrange(0, days@.len() as int) =~= days@);
    v
}

/// The holiday entries of a feed document.
pub fn document_holidays(doc: &FeedDocument) -> (v: Vec<HolidayEntry>)
    ensures
        entries_view(v@) == document_entries(*doc),
{
    match &doc.days {
        Some(days) => holiday_entries(days),
        None => {
            let v: Vec<HolidayEntry> = Vec::new();
            assert(entries_view(v@) =~= Seq::empty());
            v
        },
    }
}

/// Every imported entry has a date and one of the two holiday types, and a
/// feed never gives more entries than it has days.
pub proof fn lemma_entries_well_formed(days: Seq<FeedDay>)
    ensures
        days_entries(days).len() <= days.len(),
        forall|i: int|
            0 <= i < days_entries(days).len() ==> {
                let e = #[trigger] days_entries(days)[i];
                &&& e.0.len() > 0
                &&& (e.1 == rest_type() || e.1 == overtime_type())
            },
    decreases days.len(),
{
    if days.len() > 0 {
        lemma_entries_well_formed(days.drop_last());
        let rest = days_entries(days.drop_last());
        match day_entry(days.last()) {
            Some(e) => {
                assert forall|i: int| 0 <= i < days_entries(days).len() implies {
                    let e = #[trigger] days_entries(days)[i];
                    &&& e.0.len() > 0
                    &&& (e.1 == rest_type() || e.1 == overtime_type())
                } by {
                    if i < rest.len() {
                        assert(days_entries(days)[i] == rest[i]);
                    }
                }
            },
            None => {},
        }
    }
}

/// Every feed day with a date gives exactly one entry, and days without a
/// date give none: the number of entries is the number of dated days.
pub open spec fn dated_days(days: Seq<FeedDay>) -> nat
    decreases days.len(),
{
    if days.len() == 0 {
        0
    } else {
        dated_days(days.drop_last()) + if text_or_empty(days.last().date).len() > 0 {
            1nat
        } else {
            0nat
        }
    }
}

pub proof fn lemma_one_entry_per_dated_day(days: Seq<FeedDay>)
    ensures
        days_entries(days).len() == dated_days(days),
    decreases days.len(),
{
    if days.len() > 0 {
        lemma_one_entry_per_dated_day(days.drop_last());
    }
}

/// One feed day alone gives one entry exactly when it has a non-empty date:
/// its date, `"overtime"` exactly when `isOffDay` is `false` (`"rest"`
/// otherwise, also when the flag is missing), and its name (empty when
/// missing).
pub proof fn lemma_entry_of_one_day(d: FeedDay)
    ensures
        days_entries(seq![d]) == {
            let date = match d.date {
                Some(s) => s@,
                None => Seq::<char>::empty(),
            };
            let name = match d.name {
                Some(s) => s@,
                None => Seq::<char>::empty(),
            };
            let htype = if d.is_off_day == Some(false) {
                "overtime"@
            } else {
                "rest"@
            };
            if date.len() == 0 {
                Seq::empty()
            } else {
                seq![(date, htype, name)]
            }
        },
{
    assert(seq![d].drop_last() =~= Seq::<FeedDay>::empty());
    assert(seq![d].last() == d);
    assert(days_entries(Seq::<FeedDay>::empty()) == Seq::<(Seq<char>, Seq<char>, Seq<char>)>::empty());
    match day_entry(d) {
        Some(e) => {
            assert(days_entries(seq![d]) == Seq::<(Seq<char>, Seq<char>, Seq<char>)>::empty().push(e));
            assert(Seq::<(Seq<char>, Seq<char>, Seq<char>)>::empty().push(e) =~= seq![e]);
        },
        None => {},
    }
}

/// Each day is turned into its entry on its own, whatever stands before or
/// after it: the entries of two runs of days joined are the entries of the
/// first run followed by those of the second.
pub proof fn lemma_entries_of_joined_days(a: Seq<FeedDay>, b: Seq<FeedDay>)
    ensures
        days_entries(a + b) == days_entries(a) + days_entries(b),
    decreases b.len(),
{
    if b.len() == 0 {
        assert(a + b =~= a);
        assert(days_entries(a) + days_entries(b) =~= days_entries(a));
    } else {
        let b1 = b.drop_last();
        lemma_entries_of_joined_days(a, b1);
        assert((a + b).drop_last() =~= a + b1);
        assert((a + b).last() == b.last());
        match day_entry(b.last()) {
            Some(e) => {
                assert(days_entries(a) + days_entries(b) =~= (days_entries(a) + days_entries(b1)).push(e));
            },
            None => {},
        }
    }
}

/// A document with a `"days"` array gives the entries of those days, one per
/// dated day, none left out; a document without one gives nothing.
pub proof fn lemma_document_gives_every_dated_day(doc: FeedDocument)
    ensures
        match doc.days {
            Some(ds) => {
                &&& document_entries(doc) == days_entries(ds@)
                &&& document_entries(doc).len() == dated_days(ds@)
            },
            None => document_entries(doc).len() == 0,
        },
{
    match doc.days {
        Some(ds) => lemma_one_entry_per_dated_day(ds@),
        None => {},
    }
}

/// The address of the feed document of `year`.
pub open spec fn feed_url(year: int) -> Seq<char> {
    "https://cdn.jsdelivr.net/gh/NateScarlet/holiday-cn@master/"@ + signed_decimal(year)
        + ".json"@
}

/// The address of the feed document of `year`.
pub fn holiday_feed_url(year: i32) -> (url: String)
    ensures
        url@ == feed_url(year as int),
{
    let mut url = String::from_str("https://cdn.jsdelivr.net/gh/NateScarlet/holiday-cn@master/");
    push_signed_decimal(&mut url, year);
    url.append(".json");
    url
}

/// Different years are fetched from different addresses.
pub proof fn lemma_feed_url_injective(a: int, b: int)
    requires
        feed_url(a) == feed_url(b),
    ensures
        a == b,
{
    let p = "https://cdn.jsdelivr.net/gh/NateScarlet/holiday-cn@master/"@;
    let s = ".json"@;
    let ua = feed_url(a);
    let ub = feed_url(b);
    assert(ua.len() == p.len() + signed_decimal(a).len() + s.len());
    assert(ub.len() == p.len() + signed_decimal(b).len() + s.len());
    assert(signed_decimal(a) =~= ua.subrange(p.len() as int, ua.len() - s.len()));
    assert(signed_decimal(b) =~= ub.subrange(p.len() as int, ub.len() - s.len()));
    lemma_signed_decimal_injective(a, b);
}

/// Whether an HTTP status means success (2xx), as `StatusCode::is_success`
/// answers.
pub open spec fn status_is_success(status: u16) -> bool {
    200 <= status < 300
}

/// Where the fetch of one year's feed stands.
pub enum FetchState {
    /// The request has been sent.
    AwaitingResponse,
    /// A successful response has come; its body is being read.
    AwaitingBody,
}

/// What the fetch of one year's feed has just seen happen.
pub enum FetchEvent {
    /// The request could not be sent or answered.
    RequestFailed,
    /// A response with this HTTP status has come.
    Responded { status: u16 },
    /// The body could not be read as JSON.
    BodyUnreadable,
    /// The body has been read.
    BodyRead { document: FeedDocument },
}

/// What the fetch of one year's feed does next.
pub enum FetchAction {
    /// Read the response body as JSON.
    ReadBody,
    /// Stop, with these entries (none on any failure).
    Finish(Vec<HolidayEntry>),
}

/// Which events can happen in which state.
pub open spec fn event_expected(state: FetchState, event: FetchEvent) -> bool {
    match state {
        FetchState::AwaitingResponse => event is RequestFailed || event is Responded,
        FetchState::AwaitingBody => event is BodyUnreadable || event is BodyRead,
    }
}

pub open spec fn finishes_with(a: FetchAction, entries: Seq<(Seq<char>, Seq<char>, Seq<char>)>) -> bool {
    a matches FetchAction::Finish(v) && entries_view(v@) == entries
}

/// The decisions of fetching one year's holidays: any failure, and any
/// status other than 2xx, ends the fetch with no entries; a successful
/// response has its body read, and the entries are those of the document.
pub fn fetch_step(state: FetchState, event: FetchEvent) -> (a: FetchAction)
    requires
        event_expected(state, event),
    ensures
        match event {
            FetchEvent::RequestFailed => finishes_with(a, Seq::empty()),
            FetchEvent::Responded { status } => if status_is_success(status) {
                a is ReadBody
            } else {
                finishes_with(a, Seq::empty())
            },
            FetchEvent::BodyUnreadable => finishes_with(a, Seq::empty()),
            FetchEvent::BodyRead { document } => finishes_with(a, document_entries(document)),
        },
{
    let none: Vec<HolidayEntry> = Vec::new();
    assert(entries_view(none@) =~= Seq::empty());
    match event {
        FetchEvent::RequestFailed => FetchAction::Finish(none),
        FetchEvent::Responded { status } => {
            if 200 <= status && status < 300 {
                FetchAction::ReadBody
            } else {
                FetchAction::Finish(none)
            }
        },
        FetchEvent::BodyUnreadable => FetchAction::Finish(none),
        FetchEvent::BodyRead { document } => FetchAction::Finish(document_holidays(&document)),
    }
}

/// The years whose holidays are refreshed: the current one and the next.
pub fn refresh_years(current: i32) -> (years: (i32, i32))
    requires
        current < i32::MAX,
    ensures
        years.0 == current,
        years.1 == current + 1,
{
    (current, current + 1)
}

/// The entries of both years, the current year's first.
pub fn join_year_entries(first: Vec<HolidayEntry>, second: Vec<HolidayEntry>) -> (all: Vec<
    HolidayEntry,
>)
    ensures
        all@ == first@ + second@,
{
    let mut all = first;
    let mut rest = second;
    all.append(&mut rest);
    all
}

/// The entries to import, or none when the feed gave nothing, in which case
/// the stored holidays are left as they are.
pub fn entries_to_import(entries: Vec<HolidayEntry>) -> (r: Option<Vec<HolidayEntry>>)
    ensures
        entries@.len() == 0 <==> r is None,
        r matches Some(v) ==> v@ == entries@,
{
    if entries.len() == 0 {
        None
    } else {
        Some(entries)
    }
}

} // verus!
