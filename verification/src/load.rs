//! Loaders: states that sit on an application's state stack while a large
//! resource is fetched, and hand a continuation its result exactly once.
//!
//! Each loader is a state machine that the host ticks once per frame. A tick
//! returns a [`Step`]. On [`Step::Pending`] the host keeps the loader and must
//! ask to be ticked again, since idle states are not ticked by themselves. On
//! [`Step::Resolved`] the host runs the continuation on the outcome and
//! replaces the loader by the state that the continuation returns.
//!
//! There is no cancellation. Background work whose loader was dropped runs
//! to its end, and what it sends is dropped unread.

use crate::handoff::{single_shot, Inbox, Outbox, Polled};
use crate::payload::{
    canceled_message, fetched_content, lemma_decoding_reads_the_end, relative_path, resource_url, unpack, unpack_view, unpacked, url_of,
    Deployment, ErrorKind, Failure, LoadError, Payload, PayloadContent,
};
use vstd::prelude::*;

verus! {

/// The ways of loading.
#[derive(Clone, Copy, PartialEq, Eq, Structural, Debug)]
pub enum Strategy {
    /// The whole load happens inside one tick.
    Blocking,
    /// A request runs on the host's asynchronous engine and is polled.
    PollingFetch,
    /// An arbitrary computation runs on a worker and is polled.
    BackgroundFuture,
}

/// What the host can do.
#[derive(Clone, Copy, PartialEq, Eq, Structural, Debug)]
pub struct Host {
    /// Whether a tick may block on reading.
    pub can_block: bool,
    /// Where resources are fetched from when a tick may not block.
    pub deployment: Deployment,
}

/// The strategy by which a host loads files.
pub open spec fn strategy_for(can_block: bool) -> Strategy {
    if can_block {
        Strategy::Blocking
    } else {
        Strategy::PollingFetch
    }
}

/// What a tick of a loader asks of the host.
pub enum Step<K, V> {
    /// Nothing yet: keep the loader, and ask to be ticked again.
    Pending,
    /// Done: run `continuation` on `outcome`, and replace the loader by what
    /// it returns.
    Resolved { continuation: K, outcome: Result<V, LoadError> },
}

/// A place for a continuation that is used once.
pub struct Slot<K> {
    pub held: Option<K>,
}

impl<K> Slot<K> {
    /// A slot that holds `continuation`.
    pub fn new(continuation: K) -> (slot: Slot<K>)
        ensures
            slot.held == Some(continuation),
    {
        Slot { held: Some(continuation) }
    }

    /// Whether the continuation is still there.
    pub fn is_armed(&self) -> (armed: bool)
        ensures
            armed == self.held is Some,
    {
        self.held.is_some()
    }

    /// Takes the continuation out. It has to be there.
    pub fn take(&mut self) -> (continuation: K)
        requires
            old(self).held is Some,
        ensures
            old(self).held == Some(continuation),
            final(self).held is None,
    {
        let held = self.held.take();
        held.unwrap()
    }
}

/// The time shown after a tick at `now`: the time since `started`, but never
/// less than what was `shown` before.
pub open spec fn elapsed_after(started: u64, shown: u64, now: u64) -> u64 {
    let measured = if now >= started {
        (now - started) as u64
    } else {
        0
    };
    if measured > shown {
        measured
    } else {
        shown
    }
}

/// What a pending loader shows: a title and the time spent so far. Times are
/// readings of the host's clock, in milliseconds.
pub struct Progress {
    pub title: String,
    pub started: u64,
    pub elapsed: u64,
}

impl Progress {
    /// Progress that starts at `now`.
    pub fn new(title: String, now: u64) -> (progress: Progress)
        ensures
            progress.title == title,
            progress.started == now,
            progress.elapsed == 0,
    {
        Progress { title, started: now, elapsed: 0 }
    }

    /// Records a tick at `now`. The time shown never goes back.
    pub fn tick(&mut self, now: u64)
        ensures
            final(self).title == old(self).title,
            final(self).started == old(self).started,
            final(self).elapsed == elapsed_after(old(self).started, old(self).elapsed, now),
            final(self).elapsed >= old(self).elapsed,
    {
        let measured: u64 = now.saturating_sub(self.started);
        if measured > self.elapsed {
            self.elapsed = measured;
        }
    }
}

/// With a clock that does not go back, a pending tick shows the time since
/// the start exactly, and the next one shows no less.
pub proof fn lemma_pending_ticks_show_time_since_start(
    started: u64,
    shown: u64,
    first: u64,
    second: u64,
)
    requires
        started <= first <= second,
        shown <= first - started,
    ensures
        elapsed_after(started, shown, first) == first - started,
        elapsed_after(started, elapsed_after(started, shown, first), second) == second - started,
        elapsed_after(started, shown, first) <= elapsed_after(
            started,
            elapsed_after(started, shown, first),
            second,
        ),
{
}

/// Whatever the clock reads, the time shown does not go back.
pub proof fn lemma_elapsed_never_goes_back(started: u64, shown: u64, now: u64)
    ensures
        elapsed_after(started, shown, now) >= shown,
{
}

/// Whether a loader is still armed after a tick.
pub open spec fn armed_after(armed: bool, resolved: bool) -> bool {
    armed && !resolved
}

/// Whether a loader that starts out `armed` may be ticked once for each
/// entry of `resolved`, where an entry says whether that tick resolved.
pub open spec fn ticks_allowed(armed: bool, resolved: Seq<bool>) -> bool
    decreases resolved.len(),
{
    if resolved.len() == 0 {
        true
    } else {
        armed && ticks_allowed(armed_after(armed, resolved[0]), resolved.skip(1))
    }
}

/// How many of the ticks handed the continuation out.
pub open spec fn handovers(resolved: Seq<bool>) -> nat
    decreases resolved.len(),
{
    if resolved.len() == 0 {
        0
    } else {
        (if resolved[0] {
            1nat
        } else {
            0nat
        }) + handovers(resolved.skip(1))
    }
}

/// The continuation runs once: over any ticks that a loader allows, it is
/// handed out at most once, and exactly once where the last tick resolved.
/// No tick is allowed after that one.
pub proof fn lemma_continuation_handed_out_once(resolved: Seq<bool>)
    requires
        ticks_allowed(true, resolved),
    ensures
        handovers(resolved) <= 1,
        handovers(resolved) == 1 <==> resolved.len() > 0 && resolved.last(),
        forall|i: int| 0 <= i < resolved.len() - 1 ==> !resolved[i],
    decreases resolved.len(),
{
    if resolved.len() > 0 {
        let rest = resolved.skip(1);
        if resolved[0] {
            assert(rest.len() == 0) by {
                if rest.len() > 0 {
                    assert(ticks_allowed(false, rest));
                }
            }
            assert(handovers(rest) == 0);
        } else {
            lemma_continuation_handed_out_once(rest);
            if rest.len() > 0 {
                assert(rest.last() == resolved.last());
            }
            assert forall|i: int| 0 <= i < resolved.len() - 1 implies !resolved[i] by {
                if i > 0 {
                    assert(rest[i - 1] == resolved[i]);
                }
            }
        }
    }
}

/// What a blocking load of the file at `path` ends in, given what reading it
/// gave.
pub open spec fn blocking_outcome(path: Seq<char>, file: Result<Seq<u8>, Seq<char>>) -> Result<
    PayloadContent,
    Failure,
> {
    match file {
        Ok(bytes) => unpacked(path, bytes),
        Err(complaint) => Err(Failure { kind: ErrorKind::Transport, message: complaint }),
    }
}

/// On a development server, which serves the files as they are, the fetch
/// task makes of a body what a blocking load makes of the same bytes read
/// from the file: the two strategies agree on the resource at `relative`,
/// whatever lies in front of it in the address and in the path. The name
/// has to be long enough to hold the longest suffix of the convention.
pub proof fn lemma_polling_agrees_with_blocking(
    root: Seq<char>,
    relative: Seq<char>,
    status: u16,
    status_text: Seq<char>,
    body: Seq<u8>,
)
    requires
        relative.len() >= 7,
    ensures
        fetched_content(url_of(Deployment::LocalDev, relative), true, status, status_text, body)
            == blocking_outcome(root + relative, Ok(body)),
{
    lemma_decoding_reads_the_end("http://0.0.0.0:8000/"@, relative);
    lemma_decoding_reads_the_end(root, relative);
}

/// A loader for hosts that may block: the whole load happens in its one tick,
/// so it needs no channel.
pub struct BlockingLoader<K> {
    pub path: String,
    pub on_load: Slot<K>,
}

impl<K> BlockingLoader<K> {
    pub fn new(path: String, on_load: K) -> (loader: BlockingLoader<K>)
        ensures
            loader.path == path,
            loader.on_load.held == Some(on_load),
    {
        BlockingLoader { path, on_load: Slot::new(on_load) }
    }

    /// The title of the loading screen.
    pub fn title(&self) -> (title: String)
        ensures
            title@ == "load "@ + self.path@,
    {
        let mut title = String::from_str("load ");
        title.append(self.path.as_str());
        title
    }

    /// The one tick. `file` is what reading the file at the loader's path
    /// gave: its bytes, or the reader's complaint. The loader has to be
    /// armed.
    pub fn event(&mut self, file: Result<Vec<u8>, String>) -> (step: Step<K, Payload>)
        requires
            old(self).on_load.held is Some,
        ensures
            final(self).on_load.held is None,
            final(self).path == old(self).path,
            step matches Step::Resolved { continuation, outcome } && old(self).on_load.held == Some(
                continuation,
            ) && unpack_view(outcome) == blocking_outcome(
                old(self).path@,
                match file {
                    Ok(bytes) => Ok(bytes@),
                    Err(complaint) => Err(complaint@),
                },
            ),
    {
        let outcome = match file {
            Ok(bytes) => unpack(self.path.as_str(), bytes),
            Err(complaint) => Err(LoadError::transport(complaint)),
        };
        let continuation = self.on_load.take();
        Step::Resolved { continuation, outcome }
    }
}

/// What the fetch task sends: what it made of the response in its own
/// context, decoded as far as the host decodes there, or why there is
/// nothing.
pub type Fetched<V> = Result<V, LoadError>;

/// A loader for hosts that may not block: a fetch task unpacks and decodes
/// the response in its own context and sends the result through a channel,
/// and each tick looks for it.
#[verifier::reject_recursive_types(V)]
pub struct FetchLoader<K, V> {
    pub response: Inbox<Fetched<V>>,
    pub on_load: Slot<K>,
    pub progress: Progress,
    pub url: String,
}

/// The title of a fetch's loading screen.
pub open spec fn fetch_title(url: Seq<char>) -> Seq<char> {
    "Loading "@ + url + "..."@
}

impl<K, V> FetchLoader<K, V> {
    /// A loader for the resource at `relative` under the data root, and the
    /// sending end for the task that fetches [`FetchLoader::url`].
    pub fn new(deployment: Deployment, relative: &str, now: u64, on_load: K) -> (made: (
        FetchLoader<K, V>,
        Outbox<Fetched<V>>,
    ))
        ensures
            made.0.url@ == url_of(deployment, relative@),
            made.0.on_load.held == Some(on_load),
            made.0.response.is_open(),
            made.0.progress.title@ == fetch_title(made.0.url@),
            made.0.progress.started == now,
            made.0.progress.elapsed == 0,
    {
        let url = resource_url(deployment, relative);
        let mut title = String::from_str("Loading ");
        title.append(url.as_str());
        title.append("...");
        let (outbox, response) = single_shot();
        (
            FetchLoader {
                response,
                on_load: Slot::new(on_load),
                progress: Progress::new(title, now),
                url,
            },
            outbox,
        )
    }

    /// What a tick does to a loader and answers, given what polling the
    /// channel gave: `after` and `step` follow from `before`, `polled` and
    /// `now`. The channel's own end is left aside.
    pub open spec fn acts_on(
        before: FetchLoader<K, V>,
        polled: Polled<Fetched<V>>,
        now: u64,
        after: FetchLoader<K, V>,
        step: Step<K, V>,
    ) -> bool {
        &&& after.url == before.url
        &&& after.progress.title == before.progress.title
        &&& after.progress.started == before.progress.started
        &&& match polled {
            Polled::NotReady => {
                &&& step is Pending
                &&& after.on_load == before.on_load
                &&& after.progress.elapsed == elapsed_after(
                    before.progress.started,
                    before.progress.elapsed,
                    now,
                )
            },
            Polled::Ready(fetched) => {
                &&& step matches Step::Resolved { continuation, outcome }
                &&& before.on_load.held == Some(continuation)
                &&& after.on_load.held is None
                &&& after.progress == before.progress
                &&& outcome == fetched
            },
            Polled::Closed => {
                &&& step matches Step::Resolved { continuation, outcome }
                &&& before.on_load.held == Some(continuation)
                &&& after.on_load.held is None
                &&& after.progress == before.progress
                &&& outcome is Err
                &&& outcome->Err_0@ == (Failure {
                    kind: ErrorKind::Canceled,
                    message: canceled_message(),
                })
            },
        }
    }

    /// Acts on what polling the channel gave. While nothing is there, the
    /// clock advances and the loader stays armed. What the fetch task sent
    /// is passed on as it is; a closed channel becomes a failure of its own.
    pub fn resolve(&mut self, polled: Polled<Fetched<V>>, now: u64) -> (step: Step<K, V>)
        requires
            old(self).on_load.held is Some,
        ensures
            final(self).response == old(self).response,
            Self::acts_on(*old(self), polled, now, *final(self), step),
    {
        match polled {
            Polled::NotReady => {
                self.progress.tick(now);
                Step::Pending
            },
            Polled::Ready(fetched) => {
                let continuation = self.on_load.take();
                Step::Resolved { continuation, outcome: fetched }
            },
            Polled::Closed => {
                let continuation = self.on_load.take();
                Step::Resolved { continuation, outcome: Err(LoadError::canceled()) }
            },
        }
    }

    /// One tick at `now`: polls the channel and acts on what it gave, as
    /// [`FetchLoader::resolve`] does. The loader has to be armed. Whatever
    /// the channel gave, the continuation leaves the loader exactly when the
    /// tick resolves, and the time shown does not go back. A loader whose
    /// channel was closed before resolves with the failure of a closed
    /// channel.
    pub fn event(&mut self, now: u64) -> (step: Step<K, V>)
        requires
            old(self).on_load.held is Some,
        ensures
            exists|polled: Polled<Fetched<V>>| #[trigger]
                Self::acts_on(*old(self), polled, now, *final(self), step),
            !old(self).response.is_open() ==> (step matches Step::Resolved { outcome, .. }
                && outcome is Err && outcome->Err_0@ == (Failure {
                kind: ErrorKind::Canceled,
                message: canceled_message(),
            })),
            final(self).progress.elapsed >= old(self).progress.elapsed,
            final(self).on_load.held is Some == armed_after(true, step is Resolved),
            final(self).response.is_open() == (old(self).response.is_open() && step is Pending),
            step is Pending ==> final(self).on_load == old(self).on_load,
            step matches Step::Resolved { continuation, .. } ==> old(self).on_load.held == Some(
                continuation,
            ),
    {
        let ghost before = *self;
        let polled = self.response.try_receive();
        let step = self.resolve(polled, now);
        assert(Self::acts_on(before, polled, now, *self, step));
        step
    }
}

/// What the background computation sends: what it built, or why it failed.
pub type Built<B> = Result<B, String>;

/// A loader for arbitrary background work. The work sends what it built, a
/// deferred computation that the host finishes on its own thread against the
/// application's state, so that only one thread ever touches that state.
#[verifier::reject_recursive_types(B)]
pub struct FutureLoader<K, B> {
    pub receiver: Inbox<Built<B>>,
    pub on_load: Slot<K>,
    pub progress: Progress,
}

impl<K, B> FutureLoader<K, B> {
    /// A loader, and the sending end for the worker that runs the
    /// computation.
    pub fn new(loading_title: &str, now: u64, on_load: K) -> (made: (
        FutureLoader<K, B>,
        Outbox<Built<B>>,
    ))
        ensures
            made.0.on_load.held == Some(on_load),
            made.0.receiver.is_open(),
            made.0.progress.title@ == loading_title@,
            made.0.progress.started == now,
            made.0.progress.elapsed == 0,
    {
        let (outbox, receiver) = single_shot();
        (
            FutureLoader {
                receiver,
                on_load: Slot::new(on_load),
                progress: Progress::new(String::from_str(loading_title), now),
            },
            outbox,
        )
    }

    /// What a tick does to a loader and answers, given what polling the
    /// channel gave: `after` and `step` follow from `before`, `polled` and
    /// `now`. The channel's own end is left aside.
    pub open spec fn acts_on(
        before: FutureLoader<K, B>,
        polled: Polled<Built<B>>,
        now: u64,
        after: FutureLoader<K, B>,
        step: Step<K, B>,
    ) -> bool {
        &&& after.progress.title == before.progress.title
        &&& after.progress.started == before.progress.started
        &&& match polled {
            Polled::NotReady => {
                &&& step is Pending
                &&& after.on_load == before.on_load
                &&& after.progress.elapsed == elapsed_after(
                    before.progress.started,
                    before.progress.elapsed,
                    now,
                )
            },
            Polled::Ready(built) => {
                &&& step matches Step::Resolved { continuation, outcome }
                &&& before.on_load.held == Some(continuation)
                &&& after.on_load.held is None
                &&& after.progress == before.progress
                &&& match built {
                    Ok(builder) => outcome is Ok && outcome->Ok_0 == builder,
                    Err(complaint) => outcome is Err && outcome->Err_0@ == (Failure {
                        kind: ErrorKind::Task,
                        message: complaint@,
                    }),
                }
            },
            Polled::Closed => {
                &&& step matches Step::Resolved { continuation, outcome }
                &&& before.on_load.held == Some(continuation)
                &&& after.on_load.held is None
                &&& after.progress == before.progress
                &&& outcome is Err
                &&& outcome->Err_0@ == (Failure {
                    kind: ErrorKind::Canceled,
                    message: canceled_message(),
                })
            },
        }
    }

    /// Acts on what polling the channel gave. While nothing is there, the
    /// clock advances and the loader stays armed. What was built is passed
    /// on, for the host to finish; the work's own failure is passed on; a
    /// closed channel becomes a failure of its own.
    pub fn resolve(&mut self, polled: Polled<Built<B>>, now: u64) -> (step: Step<K, B>)
        requires
            old(self).on_load.held is Some,
        ensures
            final(self).receiver == old(self).receiver,
            Self::acts_on(*old(self), polled, now, *final(self), step),
    {
        match polled {
            Polled::NotReady => {
                self.progress.tick(now);
                Step::Pending
            },
            Polled::Ready(built) => {
                let outcome = match built {
                    Ok(builder) => Ok(builder),
                    Err(complaint) => Err(LoadError::task(complaint)),
                };
                let continuation = self.on_load.take();
                Step::Resolved { continuation, outcome }
            },
            Polled::Closed => {
                let continuation = self.on_load.take();
                Step::Resolved { continuation, outcome: Err(LoadError::canceled()) }
            },
        }
    }

    /// The strategy that this loader is bound to.
    pub fn strategy(&self) -> (strategy: Strategy)
        ensures
            strategy == Strategy::BackgroundFuture,
    {
        Strategy::BackgroundFuture
    }

    /// One tick at `now`: polls the channel and acts on what it gave, as
    /// [`FutureLoader::resolve`] does. The loader has to be armed. Whatever
    /// the channel gave, the continuation leaves the loader exactly when the
    /// tick resolves, and the time shown does not go back. A loader whose
    /// channel was closed before resolves with the failure of a closed
    /// channel.
    pub fn event(&mut self, now: u64) -> (step: Step<K, B>)
        requires
            old(self).on_load.held is Some,
        ensures
            exists|polled: Polled<Built<B>>| #[trigger]
                Self::acts_on(*old(self), polled, now, *final(self), step),
            !old(self).receiver.is_open() ==> (step matches Step::Resolved { outcome, .. }
                && outcome is Err && outcome->Err_0@ == (Failure {
                kind: ErrorKind::Canceled,
                message: canceled_message(),
            })),
            final(self).progress.elapsed >= old(self).progress.elapsed,
            final(self).on_load.held is Some == armed_after(true, step is Resolved),
            final(self).receiver.is_open() == (old(self).receiver.is_open() && step is Pending),
            step is Pending ==> final(self).on_load == old(self).on_load,
            step matches Step::Resolved { continuation, .. } ==> old(self).on_load.held == Some(
                continuation,
            ),
    {
        let ghost before = *self;
        let polled = self.receiver.try_receive();
        let step = self.resolve(polled, now);
        assert(Self::acts_on(before, polled, now, *self, step));
        step
    }
}

/// Finishes a background load on the thread that owns the application's
/// state: what the work built is run against `app`, and a failure is passed
/// on. The background work itself never touches that state.
pub fn evaluate<A, T, B: FnOnce(&A) -> T>(outcome: Result<B, LoadError>, app: &A) -> (result:
    Result<T, LoadError>)
    requires
        outcome matches Ok(builder) ==> call_requires(builder, (app,)),
    ensures
        match outcome {
            Ok(builder) => result matches Ok(value) && call_ensures(builder, (app,), value),
            Err(e) => result matches Err(passed) && passed == e,
        },
{
    match outcome {
        Ok(builder) => Ok(builder(app)),
        Err(e) => Err(e),
    }
}

/// A loader of files, by the strategy that the host allows.
#[verifier::reject_recursive_types(V)]
pub enum FileLoader<K, V> {
    Blocking(BlockingLoader<K>),
    Polling(FetchLoader<K, V>),
}

impl<K, V> FileLoader<K, V> {
    pub open spec fn strategy_of(self) -> Strategy {
        match self {
            FileLoader::Blocking(_) => Strategy::Blocking,
            FileLoader::Polling(_) => Strategy::PollingFetch,
        }
    }

    /// The continuation, while the loader is armed.
    pub open spec fn continuation(self) -> Option<K> {
        match self {
            FileLoader::Blocking(loader) => loader.on_load.held,
            FileLoader::Polling(loader) => loader.on_load.held,
        }
    }

    /// A loader for the file at `path`. The host's capability alone picks
    /// the strategy. A blocking loader reads the path as it is. A polling
    /// loader fetches the part of the path behind the data root `root`, so
    /// the path has to lie under it, and comes with the sending end for the
    /// fetch task.
    pub fn new(host: Host, root: &str, path: &str, now: u64, on_load: K) -> (made: (
        FileLoader<K, V>,
        Option<Outbox<Fetched<V>>>,
    ))
        requires
            !host.can_block ==> root@.is_prefix_of(path@),
        ensures
            made.0.strategy_of() == strategy_for(host.can_block),
            made.0.continuation() == Some(on_load),
            made.1 is Some <==> !host.can_block,
            match made.0 {
                FileLoader::Blocking(loader) => loader.path@ == path@,
                FileLoader::Polling(loader) => {
                    &&& loader.url@ == url_of(host.deployment, path@.skip(root@.len() as int))
                    &&& loader.response.is_open()
                    &&& loader.progress.title@ == fetch_title(loader.url@)
                    &&& loader.progress.started == now
                    &&& loader.progress.elapsed == 0
                },
            },
    {
        if host.can_block {
            (FileLoader::Blocking(BlockingLoader::new(String::from_str(path), on_load)), None)
        } else {
            let relative = relative_path(path, root).unwrap();
            let (loader, outbox) = FetchLoader::new(host.deployment, relative, now, on_load);
            (FileLoader::Polling(loader), Some(outbox))
        }
    }

    /// The strategy that this loader is bound to.
    pub fn strategy(&self) -> (strategy: Strategy)
        ensures
            strategy == self.strategy_of(),
    {
        match self {
            FileLoader::Blocking(_) => Strategy::Blocking,
            FileLoader::Polling(_) => Strategy::PollingFetch,
        }
    }
}

/// A state for a map that is loaded already: its one tick hands the
/// continuation out.
pub struct MapAlreadyLoaded<K> {
    pub on_load: Slot<K>,
}

impl<K> MapAlreadyLoaded<K> {
    /// The one tick. The state has to be armed.
    pub fn event(&mut self) -> (continuation: K)
        requires
            old(self).on_load.held is Some,
        ensures
            old(self).on_load.held == Some(continuation),
            final(self).on_load.held is None,
    {
        self.on_load.take()
    }
}

/// How a request for a map starts.
#[verifier::reject_recursive_types(V)]
pub enum MapLoad<K, V> {
    /// The map is the current one: nothing is loaded.
    AlreadyLoaded(MapAlreadyLoaded<K>),
    /// The map's file is loaded; a polling loader comes with the sending end
    /// for the fetch task.
    Load(FileLoader<K, V>, Option<Outbox<Fetched<V>>>),
}

/// What the host does when a map's load has ended.
pub enum MapOutcome<K, M> {
    /// Switch to `map`, then run `on_load`.
    Switch { map: M, on_load: K },
    /// Replace the loader by a message box with this title and these lines.
    Popup { title: String, lines: Vec<String> },
}

/// The title of the message box for a map that could not be loaded.
pub open spec fn popup_title() -> Seq<char> {
    "Error"@
}

/// The first line of the message box for the map described as `description`.
pub open spec fn popup_headline(description: Seq<char>) -> Seq<char> {
    "Couldn't load "@ + description
}

pub struct MapLoader;

impl MapLoader {
    /// Starts switching to the map named `wanted`, whose file lies at
    /// `path`, while the map named `current` is loaded. Where the two names
    /// are equal nothing is loaded. Else the file is loaded as
    /// [`FileLoader::new`] says, so on a host that may not block the path
    /// has to lie under the data root `root`.
    pub fn new<K, V>(
        host: Host,
        current: &String,
        wanted: &String,
        root: &str,
        path: &str,
        now: u64,
        on_load: K,
    ) -> (load: MapLoad<K, V>)
        requires
            current@ != wanted@ && !host.can_block ==> root@.is_prefix_of(path@),
        ensures
            match load {
                MapLoad::AlreadyLoaded(state) => {
                    &&& current@ == wanted@
                    &&& state.on_load.held == Some(on_load)
                },
                MapLoad::Load(loader, outbox) => {
                    &&& current@ != wanted@
                    &&& loader.strategy_of() == strategy_for(host.can_block)
                    &&& loader.continuation() == Some(on_load)
                    &&& outbox is Some <==> !host.can_block
                    &&& match loader {
                        FileLoader::Blocking(inner) => inner.path@ == path@,
                        FileLoader::Polling(inner) => {
                            &&& inner.url@ == url_of(
                                host.deployment,
                                path@.skip(root@.len() as int),
                            )
                            &&& inner.response.is_open()
                            &&& inner.progress.title@ == fetch_title(inner.url@)
                            &&& inner.progress.started == now
                            &&& inner.progress.elapsed == 0
                        },
                    }
                },
            },
    {
        if *current == *wanted {
            MapLoad::AlreadyLoaded(MapAlreadyLoaded { on_load: Slot::new(on_load) })
        } else {
            let (loader, outbox) = FileLoader::new(host, root, path, now, on_load);
            MapLoad::Load(loader, outbox)
        }
    }

    /// Decides what follows the load of the map described as `description`:
    /// on success the switch to the map and then the continuation, on
    /// failure a message box that names the map and gives the failure's
    /// message.
    pub fn finish<K, M>(description: &str, outcome: Result<M, LoadError>, on_load: K) -> (next:
        MapOutcome<K, M>)
        ensures
            match outcome {
                Ok(loaded) => next matches MapOutcome::Switch { map, on_load: k } && map == loaded
                    && k == on_load,
                Err(e) => next matches MapOutcome::Popup { title, lines } && title@
                    == popup_title() && lines@.len() == 2 && lines@[0]@ == popup_headline(
                    description@,
                ) && lines@[1]@ == e@.message,
            },
    {
        match outcome {
            Ok(map) => MapOutcome::Switch { map, on_load },
            Err(e) => {
                let mut headline = String::from_str("Couldn't load ");
                headline.append(description);
                let mut lines: Vec<String> = Vec::new();
                lines.push(headline);
                lines.push(e.to_message());
                MapOutcome::Popup { title: String::from_str("Error"), lines }
            },
        }
    }
}

} // verus!
