//! Notifications and the store that keeps the latest of them.
use crate::text::text_view;
use circular_buffer::CircularBuffer;
use vstd::prelude::*;
use vstd::string::*;

verus! {

/// The ring buffer of the circular-buffer crate: at most `N` items, the
/// oldest at the front.
#[verifier::external_type_specification]
#[verifier::external_body]
#[verifier::reject_recursive_types(T)]
pub struct ExCircularBuffer<const N: usize, T>(CircularBuffer<N, T>);

/// What a notification holds.
pub ghost struct NotificationView {
    pub id: Seq<char>,
    pub message: Seq<char>,
    pub created_at: Seq<char>,
}

/// A message with an identifier of its own and the time it was made.
#[derive(Debug)]
pub struct Notification {
    id: String,
    message: String,
    created_at: String,
}

impl View for Notification {
    type V = NotificationView;

    closed spec fn view(&self) -> NotificationView {
        NotificationView { id: self.id@, message: self.message@, created_at: self.created_at@ }
    }
}

impl Clone for Notification {
    fn clone(&self) -> (r: Self)
        ensures
            r@ == self@,
    {
        Notification {
            id: self.id.clone(),
            message: self.message.clone(),
            created_at: self.created_at.clone(),
        }
    }
}

/// `Uuid::new_v4` of the uuid crate, written out by its `Display`: a random
/// identifier. Nothing holds of it that a caller could rely on.
#[verifier::external_body]
fn fresh_id() -> String {
    uuid::Uuid::new_v4().to_string()
}

/// `Utc::now` of chrono, written out by its `Display`: the time of the call.
#[verifier::external_body]
fn now_text() -> String {
    chrono::Utc::now().to_string()
}

impl Notification {
    /// A notification made of its three parts.
    pub fn from_parts(id: String, message: String, created_at: String) -> (r: Self)
        ensures
            r@ == (NotificationView { id: id@, message: message@, created_at: created_at@ }),
    {
        Notification { id, message, created_at }
    }

    /// A notification with a fresh identifier, made now.
    pub fn new(message: String) -> (r: Self)
        ensures
            r@.message == message@,
    {
        Notification { id: fresh_id(), message, created_at: now_text() }
    }

    /// The identifier.
    pub fn id(&self) -> (r: &String)
        ensures
            r@ == self@.id,
    {
        &self.id
    }

    /// The message.
    pub fn message(&self) -> (r: &String)
        ensures
            r@ == self@.message,
    {
        &self.message
    }

    /// The time of making, as it was written down.
    pub fn created_at(&self) -> (r: &String)
        ensures
            r@ == self@.created_at,
    {
        &self.created_at
    }
}

impl Default for Notification {
    /// The notification that says the service has started.
    fn default() -> (r: Self)
        ensures
            r@.message == "Notification Serviced started."@,
    {
        Notification {
            id: fresh_id(),
            message: "Notification Serviced started.".to_owned(),
            created_at: now_text(),
        }
    }
}

/// Whether chrono reads `text` as a date and a time of day with an offset
/// from UTC: whether the `FromStr` of its `DateTime<FixedOffset>`, on which
/// that of `DateTime<Local>` rests, accepts it.
pub uninterp spec fn writes_a_time(text: Seq<char>) -> bool;

/// The `FromStr` of chrono's `DateTime<Local>` and its `Display`: the time
/// that `created_at` writes, in the time zone of this machine; `None` where
/// it writes none. Whether it writes one depends on the text alone. How the
/// time reads depends on the machine, so nothing is said of the text that
/// comes back.
#[verifier::external_body]
fn local_time_text(created_at: &str) -> (r: Option<String>)
    ensures
        r is Some <==> writes_a_time(created_at@),
{
    match created_at.parse::<chrono::DateTime<chrono::Local>>() {
        Ok(t) => Some(t.to_string()),
        Err(_) => None,
    }
}

/// A notification as shown to a reader: the message, and under it the
/// local time at which it was made.
pub open spec fn shown(n: NotificationView, local_time: Seq<char>) -> Seq<char> {
    n.message + "\n"@ + local_time
}

/// The mark that leads each line of a listing.
pub open spec fn bullet() -> Seq<char> {
    "\u{e2}\u{20ac}\u{a2} "@
}

/// Notifications as shown to a reader, the latest first, each behind a
/// bullet and on lines of its own. `times` holds their local times in the
/// order of `items`.
pub open spec fn listing(items: Seq<NotificationView>, times: Seq<Seq<char>>) -> Seq<char>
    decreases items.len(),
{
    if items.len() == 0 || times.len() == 0 {
        Seq::empty()
    } else {
        bullet() + shown(items.last(), times.last()) + "\n"@ + listing(
            items.drop_last(),
            times.drop_last(),
        )
    }
}

/// The time of making of every one of `items` can be read.
pub open spec fn all_write_a_time(items: Seq<NotificationView>) -> bool {
    forall|i: int| 0 <= i < items.len() ==> writes_a_time((#[trigger] items[i]).created_at)
}

/// What each of the notifications holds.
pub open spec fn views_of(items: Seq<Notification>) -> Seq<NotificationView> {
    Seq::new(items.len(), |i: int| items[i]@)
}

/// The views of texts.
pub open spec fn texts_of(texts: Seq<String>) -> Seq<Seq<char>> {
    Seq::new(texts.len(), |i: int| texts[i]@)
}

impl Notification {
    /// The notification as shown to a reader, given the local time at which
    /// it was made.
    pub fn display_with(&self, local_time: &str) -> (r: String)
        ensures
            r@ == shown(self@, local_time@),
    {
        let mut out = self.message.clone();
        out.append("\n");
        out.append(local_time);
        out
    }

    /// The notification as shown to a reader: the message, and under it the
    /// time of its making in the time zone of this machine. `None` where the
    /// time of its making cannot be read, and only there.
    pub fn to_string(&self) -> (r: Option<String>)
        ensures
            r is Some <==> writes_a_time(self@.created_at),
            r matches Some(text) ==> exists|local_time: Seq<char>| text@ == shown(self@, local_time),
    {
        match local_time_text(self.created_at.as_str()) {
            Some(t) => {
                let text = self.display_with(t.as_str());
                assert(text@ == shown(self@, t@));
                Some(text)
            },
            None => None,
        }
    }
}

/// The notifications that the store hands out, oldest first.
pub struct NotificationsResponse(pub Vec<Notification>);

impl NotificationsResponse {
    /// The local times at which the notifications were made, in their
    /// order: one for each. `None` where one of them cannot be read, and
    /// only there.
    pub fn local_times(&self) -> (r: Option<Vec<String>>)
        ensures
            r is Some <==> all_write_a_time(views_of(self.0@)),
            r matches Some(times) ==> times@.len() == self.0@.len(),
    {
        let ghost items = views_of(self.0@);
        let mut times: Vec<String> = Vec::new();
        let mut i: usize = 0;
        while i < self.0.len()
            invariant
                i <= self.0.len(),
                times@.len() == i,
                items == views_of(self.0@),
                forall|j: int| 0 <= j < i ==> writes_a_time((#[trigger] items[j]).created_at),
            decreases self.0.len() - i,
        {
            assert(items[i as int].created_at == self.0@[i as int].created_at@);
            match local_time_text(self.0[i].created_at.as_str()) {
                Some(t) => times.push(t),
                None => {
                    return None;
                },
            }
            i += 1;
        }
        Some(times)
    }

    /// The listing of the notifications, given the local time of each.
    /// `None` where `times` does not hold one time for each notification.
    pub fn listing_with(&self, times: &Vec<String>) -> (r: Option<String>)
        ensures
            text_view(r) == (if times@.len() == self.0@.len() {
                Some(listing(views_of(self.0@), texts_of(times@)))
            } else {
                None
            }),
    {
        if times.len() != self.0.len() {
            return None;
        }
        let ghost items = views_of(self.0@);
        let ghost stamps = texts_of(times@);
        let mut out = String::new();
        let mut i: usize = self.0.len();
        assert(items.take(i as int) =~= items);
        assert(stamps.take(i as int) =~= stamps);
        assert(out@ + listing(items, stamps) =~= listing(items, stamps));
        while i > 0
            invariant
                i <= self.0.len(),
                times@.len() == self.0@.len(),
                items == views_of(self.0@),
                stamps == texts_of(times@),
                out@ + listing(items.take(i as int), stamps.take(i as int)) == listing(items, stamps),
            decreases i,
        {
            let ghost before = out@;
            i -= 1;
            out.append("\u{e2}\u{20ac}\u{a2} ");
            out.append(self.0[i].display_with(times[i].as_str()).as_str());
            out.append("\n");
            proof {
                let a = items.take(i + 1);
                let b = stamps.take(i + 1);
                assert(a.drop_last() =~= items.take(i as int));
                assert(b.drop_last() =~= stamps.take(i as int));
                assert(a.last() == self.0@[i as int]@);
                assert(b.last() == times@[i as int]@);
                assert(out@ + listing(a.drop_last(), b.drop_last()) =~= before + listing(a, b));
            }
        }
        assert(items.take(0) =~= Seq::<NotificationView>::empty());
        assert(out@ + Seq::<char>::empty() =~= out@);
        Some(out)
    }

    /// The listing of the notifications, the latest first, each with the
    /// time of its making in the time zone of this machine. `None` where one
    /// of those times cannot be read, and only there.
    pub fn to_string(&self) -> (r: Option<String>)
        ensures
            r is Some <==> all_write_a_time(views_of(self.0@)),
            r matches Some(text) ==> exists|times: Seq<Seq<char>>|
                times.len() == self.0@.len() && text@ == listing(views_of(self.0@), times),
    {
        match self.local_times() {
            Some(times) => {
                let r = self.listing_with(&times);
                assert(texts_of(times@).len() == self.0@.len());
                r
            },
            None => None,
        }
    }
}

/// What the buffer holds, the oldest first.
pub uninterp spec fn buffer_items(b: CircularBuffer<20, Notification>) -> Seq<Notification>;

/// `CircularBuffer::from` an array of one item: a buffer that holds that
/// item.
#[verifier::external_body]
fn buffer_of(first: Notification) -> (b: CircularBuffer<20, Notification>)
    ensures
        buffer_items(b) == seq![first],
{
    CircularBuffer::from([first])
}

/// `CircularBuffer::push_back`: appends the item at the back. A buffer that
/// is full gives up the item at its front first, and returns it.
#[verifier::external_body]
fn buffer_push_back(b: &mut CircularBuffer<20, Notification>, item: Notification) -> (r: Option<
    Notification,
>)
    ensures
        buffer_items(*old(b)).len() < 20 ==> r is None && buffer_items(*final(b)) == buffer_items(
            *old(b),
        ).push(item),
        buffer_items(*old(b)).len() >= 20 ==> r == Some(buffer_items(*old(b))[0]) && buffer_items(
            *final(b),
        ) == buffer_items(*old(b)).skip(1).push(item),
{
    b.push_back(item)
}

/// `CircularBuffer::clear`: drops every item.
#[verifier::external_body]
fn buffer_clear(b: &mut CircularBuffer<20, Notification>)
    ensures
        buffer_items(*final(b)) == Seq::<Notification>::empty(),
{
    b.clear()
}

/// `CircularBuffer::iter`, each item cloned into a vector: what the buffer
/// holds, the oldest first.
#[verifier::external_body]
fn buffer_to_vec(b: &CircularBuffer<20, Notification>) -> (r: Vec<Notification>)
    ensures
        views_of(r@) == views_of(buffer_items(*b)),
{
    b.iter().cloned().collect()
}

/// The latest notifications, twenty at most, and whether any of them has
/// come since they were last read.
pub struct NotificationStore {
    notifications: CircularBuffer<20, Notification>,
    has_unread: bool,
}

impl NotificationStore {
    /// What the kept notifications hold, the oldest first.
    pub closed spec fn items(&self) -> Seq<NotificationView> {
        views_of(buffer_items(self.notifications))
    }

    /// Whether a notification has come since the last reading.
    pub closed spec fn unread(&self) -> bool {
        self.has_unread
    }

    /// The store keeps twenty notifications at most. Every store that
    /// `new` makes and that the methods below change does.
    pub closed spec fn wf(&self) -> bool {
        buffer_items(self.notifications).len() <= 20
    }

    /// A store that is well formed holds twenty notifications at most.
    pub proof fn lemma_capacity(&self)
        requires
            self.wf(),
        ensures
            self.items().len() <= 20,
    {
    }

    /// A store that holds the notification of its own start, unread.
    pub fn new() -> (r: Self)
        ensures
            r.wf(),
            r.items().len() == 1,
            r.items()[0].message == "Notification Serviced started."@,
            r.unread(),
    {
        NotificationStore { notifications: buffer_of(Notification::default()), has_unread: true }
    }

    /// What `before` holds after `n` has come in: `n` at the back, and the
    /// oldest gone where twenty were kept already.
    pub open spec fn with_latest(before: Seq<NotificationView>, n: NotificationView) -> Seq<
        NotificationView,
    > {
        if before.len() < 20 {
            before.push(n)
        } else {
            before.skip(1).push(n)
        }
    }

    /// Makes a notification of `payload`, keeps it and returns a copy. The
    /// store has something unread.
    pub fn create_notification(&mut self, payload: String) -> (r: Notification)
        requires
            old(self).wf(),
        ensures
            final(self).wf(),
            r@.message == payload@,
            final(self).items() == Self::with_latest(old(self).items(), r@),
            final(self).unread(),
    {
        let notification = Notification::new(payload);
        let copy = notification.clone();
        let ghost before = buffer_items(self.notifications);
        buffer_push_back(&mut self.notifications, notification);
        self.has_unread = true;
        proof {
            let after = buffer_items(self.notifications);
            if before.len() < 20 {
                assert(views_of(after) =~= views_of(before).push(copy@));
            } else {
                assert(views_of(after) =~= views_of(before).skip(1).push(copy@));
            }
        }
        copy
    }

    /// Copies of the kept notifications, the oldest first. Nothing is unread
    /// after that.
    pub fn get_notifications(&mut self) -> (r: NotificationsResponse)
        ensures
            final(self).wf() == old(self).wf(),
            views_of(r.0@) == old(self).items(),
            final(self).items() == old(self).items(),
            !final(self).unread(),
    {
        let notifications = buffer_to_vec(&self.notifications);
        self.has_unread = false;
        NotificationsResponse(notifications)
    }

    /// Drops every notification, and returns what is kept after that:
    /// nothing. Nothing is unread.
    pub fn clear_notifications(&mut self) -> (r: Vec<Notification>)
        ensures
            final(self).wf(),
            r@.len() == 0,
            final(self).items().len() == 0,
            !final(self).unread(),
    {
        buffer_clear(&mut self.notifications);
        self.has_unread = false;
        let left = buffer_to_vec(&self.notifications);
        assert(views_of(left@).len() == 0);
        left
    }

    /// Whether a notification has come since the last reading.
    pub fn any_unread(&self) -> (r: bool)
        ensures
            r == self.unread(),
    {
        self.has_unread
    }
}

} // verus!
