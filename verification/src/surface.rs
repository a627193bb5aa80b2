//! The window surface and the event source that comes with it.

use crate::driver::DriverOutcome;
use crate::error::GfxError;
use crate::instance::GraphicsInstance;
use vstd::prelude::*;

verus! {

/// Handle of an event source. Two handles name the same source exactly when
/// their serial numbers are equal.
#[derive(Clone, Copy, Debug, PartialEq, Eq, Structural)]
pub struct EventSource {
    pub serial: u64,
}

/// A window-backed target that the graphics API can present to.
#[derive(Clone, Copy, Debug, PartialEq, Eq, Structural)]
pub struct Surface {
    /// The event source that the window is bound to: its events are
    /// dispatched from there.
    pub window_source: EventSource,
    /// The instance that the surface belongs to.
    pub instance: GraphicsInstance,
}

/// The event sources that a program has made. Every source is made here, and
/// none is made twice.
#[derive(Debug)]
pub struct EventSources {
    made: u64,
}

impl View for EventSources {
    type V = Seq<EventSource>;

    /// The sources made so far, in the order they were made.
    closed spec fn view(&self) -> Seq<EventSource> {
        Seq::new(self.made as nat, |i: int| EventSource { serial: i as u64 })
    }
}

impl EventSources {
    /// A program that has made no event source yet.
    pub fn new() -> (sources: EventSources)
        ensures
            sources@ == Seq::<EventSource>::empty(),
    {
        let sources = EventSources { made: 0 };
        assert(sources@ =~= Seq::<EventSource>::empty());
        sources
    }

    /// Makes a new event source. It is none of those made before, and its
    /// serial number is the number of sources made before it.
    pub fn create(&mut self) -> (source: EventSource)
        requires
            old(self)@.len() < u64::MAX,
        ensures
            !old(self)@.contains(source),
            source.serial == old(self)@.len(),
            final(self)@ == old(self)@.push(source),
    {
        let source = EventSource { serial: self.made };
        self.made = self.made + 1;
        assert(final(self)@ =~= old(self)@.push(source));
        source
    }

    /// Whether `source` is one of the sources made so far.
    pub fn contains(&self, source: &EventSource) -> (b: bool)
        ensures
            b == self@.contains(*source),
    {
        let b = source.serial < self.made;
        proof {
            if b {
                assert(self@[source.serial as int] == *source);
            }
        }
        b
    }

    /// How many sources were made so far.
    pub fn count(&self) -> (n: u64)
        ensures
            n == self@.len(),
    {
        self.made
    }
}

/// Builds a window with a surface on `instance`, and hands back the surface
/// next to a new event source, made in `sources`.
///
/// The source that comes back is not the one passed in. It is made by this
/// call and was never handed out before; the new window is bound to it, and
/// the caller dispatches events from it from now on. Nothing is bound to
/// `event_loop`.
///
/// The request is refused without the driver, and no source made, when the
/// surface extension is not enabled on `instance`.
#[allow(unused_variables)]
pub fn init_vk_window(
    event_loop: &EventSource,
    instance: &GraphicsInstance,
    sources: &mut EventSources,
    driver: DriverOutcome,
) -> (r: Result<(EventSource, Surface), GfxError>)
    requires
        old(sources)@.contains(*event_loop),
        old(sources)@.len() < u64::MAX,
    ensures
        r is Ok <==> instance.presentable() && driver == DriverOutcome::Accepted,
        match r {
            Ok((source, surface)) => {
                &&& !old(sources)@.contains(source)
                &&& source != *event_loop
                &&& source.serial == old(sources)@.len()
                &&& final(sources)@ == old(sources)@.push(source)
                &&& surface.window_source == source
                &&& surface.instance == *instance
            },
            Err(e) => e == GfxError::SurfaceCreationError && final(sources)@ == old(sources)@,
        },
{
    if !instance.can_present() {
        return Err(GfxError::SurfaceCreationError);
    }
    match driver {
        DriverOutcome::Rejected => Err(GfxError::SurfaceCreationError),
        DriverOutcome::Accepted => {
            let source = sources.create();
            Ok((source, Surface { window_source: source, instance: *instance }))
        },
    }
}

/// Two windows built one after the other, on whatever sources were passed in,
/// come with two different new sources, and neither is a source that was made
/// before. So the two surfaces differ as well: each is bound to its own
/// source.
pub proof fn lemma_each_window_has_its_own_source(
    before: Seq<EventSource>,
    first: EventSource,
    between: Seq<EventSource>,
    second: EventSource,
)
    requires
        !before.contains(first),
        between == before.push(first),
        !between.contains(second),
    ensures
        first != second,
        !before.contains(second),
        forall|passed_in: EventSource| #[trigger]
            before.contains(passed_in) ==> passed_in != first && passed_in != second,
{
    assert(between[before.len() as int] == first);
    assert forall|passed_in: EventSource| #[trigger] before.contains(passed_in) implies passed_in
        != first && passed_in != second by {
        let i = choose|i: int| 0 <= i < before.len() && before[i] == passed_in;
        assert(between[i] == passed_in);
    }
    if before.contains(second) {
        let i = choose|i: int| 0 <= i < before.len() && before[i] == second;
        assert(between[i] == second);
    }
}

} // verus!
