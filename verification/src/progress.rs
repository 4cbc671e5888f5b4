//! Progress events: the ordered stream of messages the pipeline hands to its
//! consumer, one event per artifact, grouped by stage and monotone within a
//! stage.

use vstd::prelude::*;
use vstd::string::*;

verus! {

/// The stages of an acquisition run, in pipeline order.
#[derive(Debug, Clone, Copy, PartialEq, Eq, Structural)]
pub enum Stage {
    Java,
    Mods,
    Libraries,
    Assets,
    Extract,
    Completed,
}

impl Stage {
    /// The wire tag of this stage.
    pub open spec fn tag_spec(self) -> Seq<char> {
        match self {
            Stage::Java => "java"@,
            Stage::Mods => "mods"@,
            Stage::Libraries => "libraries"@,
            Stage::Assets => "assets"@,
            Stage::Extract => "extract"@,
            Stage::Completed => "completed"@,
        }
    }

    /// Serializes the stage to its wire tag.
    pub fn tag(&self) -> (r: &'static str)
        ensures
            r@ == self.tag_spec(),
    {
        match self {
            Stage::Java => "java",
            Stage::Mods => "mods",
            Stage::Libraries => "libraries",
            Stage::Assets => "assets",
            Stage::Extract => "extract",
            Stage::Completed => "completed",
        }
    }
}

/// One progress report: a stage tag and a position within that stage.
#[derive(Debug, Clone)]
pub struct ProgressMessage {
    pub p_type: String,
    pub current: usize,
    pub total: usize,
}

/// The mathematical shadow of a progress message.
pub struct EventView {
    pub tag: Seq<char>,
    pub current: int,
    pub total: int,
}

impl View for ProgressMessage {
    type V = EventView;

    open spec fn view(&self) -> EventView {
        EventView { tag: self.p_type@, current: self.current as int, total: self.total as int }
    }
}

impl DeepView for ProgressMessage {
    type V = EventView;

    open spec fn deep_view(&self) -> EventView {
        self.view()
    }
}

/// Builds the message for position `current` of `total` within `stage`.
pub fn progress_message(stage: Stage, current: usize, total: usize) -> (r: ProgressMessage)
    ensures
        r@.tag == stage.tag_spec(),
        r@.current == current,
        r@.total == total,
{
    ProgressMessage { p_type: String::from_str(stage.tag()), current, total }
}

/// The events of one stage with `n` artifacts: positions 1 up to `n`.
pub open spec fn category_events(tag: Seq<char>, n: int) -> Seq<EventView> {
    Seq::new(n as nat, |i: int| EventView { tag, current: i + 1, total: n })
}

/// The whole event sequence of an acquisition run over `n_mods` mod files,
/// `n_libraries` libraries and `n_assets` asset objects: one java event, one
/// event per artifact in stage order, and a final completion event.
pub open spec fn acquisition_plan_view(n_mods: int, n_libraries: int, n_assets: int) -> Seq<
    EventView,
> {
    seq![EventView { tag: "java"@, current: 1, total: 1 }] + category_events("mods"@, n_mods)
        + category_events("libraries"@, n_libraries) + category_events("assets"@, n_assets)
        + seq![EventView { tag: "completed"@, current: 0, total: 0 }]
}

/// Emits the full, ordered event plan of an acquisition run. The plan depends
/// only on how many artifacts each stage tracks — never on whether an
/// artifact needs a download — so a run that downloads nothing reports the
/// same events as a run that downloads everything.
pub fn acquisition_event_plan(n_mods: usize, n_libraries: usize, n_assets: usize) -> (r: Vec<
    ProgressMessage,
>)
    requires
        n_mods + n_libraries + n_assets + 2 <= usize::MAX,
    ensures
        r.deep_view() == acquisition_plan_view(n_mods as int, n_libraries as int, n_assets as int),
{
    let mut r: Vec<ProgressMessage> = Vec::new();
    r.push(progress_message(Stage::Java, 1, 1));
    let mut i: usize = 0;
    while i < n_mods
        invariant
            i <= n_mods,
            r.deep_view() =~= seq![EventView { tag: "java"@, current: 1, total: 1 }]
                + category_events("mods"@, n_mods as int).take(i as int),
        decreases n_mods - i,
    {
        let ghost prev = r.deep_view();
        let msg = progress_message(Stage::Mods, i + 1, n_mods);
        r.push(msg);
        proof {
            lemma_event_plan_push(
                prev,
                r.deep_view(),
                seq![EventView { tag: "java"@, current: 1, total: 1 }],
                category_events("mods"@, n_mods as int),
                i as int,
                msg@,
            );
        }
        i = i + 1;
    }
    let mut i: usize = 0;
    while i < n_libraries
        invariant
            i <= n_libraries,
            r.deep_view() =~= seq![EventView { tag: "java"@, current: 1, total: 1 }]
                + category_events("mods"@, n_mods as int) + category_events(
                "libraries"@,
                n_libraries as int,
            ).take(i as int),
        decreases n_libraries - i,
    {
        let ghost prev = r.deep_view();
        let msg = progress_message(Stage::Libraries, i + 1, n_libraries);
        r.push(msg);
        proof {
            lemma_event_plan_push(
                prev,
                r.deep_view(),
                seq![EventView { tag: "java"@, current: 1, total: 1 }] + category_events(
                    "mods"@,
                    n_mods as int,
                ),
                category_events("libraries"@, n_libraries as int),
                i as int,
                msg@,
            );
        }
        i = i + 1;
    }
    let mut i: usize = 0;
    while i < n_assets
        invariant
            i <= n_assets,
            r.deep_view() =~= seq![EventView { tag: "java"@, current: 1, total: 1 }]
                + category_events("mods"@, n_mods as int) + category_events(
                "libraries"@,
                n_libraries as int,
            ) + category_events("assets"@, n_assets as int).take(i as int),
        decreases n_assets - i,
    {
        let ghost prev = r.deep_view();
        let msg = progress_message(Stage::Assets, i + 1, n_assets);
        r.push(msg);
        proof {
            lemma_event_plan_push(
                prev,
                r.deep_view(),
                seq![EventView { tag: "java"@, current: 1, total: 1 }] + category_events(
                    "mods"@,
                    n_mods as int,
                ) + category_events("libraries"@, n_libraries as int),
                category_events("assets"@, n_assets as int),
                i as int,
                msg@,
            );
        }
        i = i + 1;
    }
    let ghost prev = r.deep_view();
    let msg = progress_message(Stage::Completed, 0, 0);
    r.push(msg);
    proof {
        assert(category_events("assets"@, n_assets as int).take(n_assets as int)
            =~= category_events("assets"@, n_assets as int));
        lemma_event_plan_push(
            prev,
            r.deep_view(),
            seq![EventView { tag: "java"@, current: 1, total: 1 }] + category_events(
                "mods"@,
                n_mods as int,
            ) + category_events("libraries"@, n_libraries as int) + category_events(
                "assets"@,
                n_assets as int,
            ),
            seq![EventView { tag: "completed"@, current: 0, total: 0 }],
            0,
            msg@,
        );
        assert(seq![EventView { tag: "completed"@, current: 0, total: 0 }].take(1)
            =~= seq![EventView { tag: "completed"@, current: 0, total: 0 }]);
        assert(r.deep_view() =~= acquisition_plan_view(
            n_mods as int,
            n_libraries as int,
            n_assets as int,
        ));
    }
    r
}

/// Appending the `i + 1`-st event of a category onto a plan prefix extends
/// the covered prefix of that category by one.
proof fn lemma_event_plan_push(
    prev: Seq<EventView>,
    next: Seq<EventView>,
    base: Seq<EventView>,
    cat: Seq<EventView>,
    i: int,
    x: EventView,
)
    requires
        prev =~= base + cat.take(i),
        0 <= i < cat.len(),
        next.len() == prev.len() + 1,
        forall|k: int| 0 <= k < prev.len() ==> next[k] == prev[k],
        next[prev.len() as int] == x,
        cat[i] == x,
    ensures
        next =~= base + cat.take(i + 1),
{
    assert(cat.take(i).len() == i);
    assert(cat.take(i + 1).len() == i + 1);
    assert forall|k: int| 0 <= k < next.len() implies next[k] == (base + cat.take(i + 1))[k] by {
        if k < prev.len() {
            assert(prev[k] == (base + cat.take(i))[k]);
            if k >= base.len() {
                assert(cat.take(i)[k - base.len()] == cat[k - base.len()]);
                assert(cat.take(i + 1)[k - base.len()] == cat[k - base.len()]);
            }
        } else {
            assert(cat.take(i + 1)[i] == cat[i]);
        }
    }
}

/// The distinct stage tags never collide.
proof fn lemma_stage_tags_distinct()
    ensures
        "java"@ != "mods"@,
        "java"@ != "libraries"@,
        "java"@ != "assets"@,
        "java"@ != "completed"@,
        "mods"@ != "libraries"@,
        "mods"@ != "assets"@,
        "mods"@ != "completed"@,
        "libraries"@ != "assets"@,
        "libraries"@ != "completed"@,
        "assets"@ != "completed"@,
{
    reveal_strlit("java");
    reveal_strlit("mods");
    reveal_strlit("libraries");
    reveal_strlit("assets");
    reveal_strlit("completed");
    assert("java"@[0] != "mods"@[0]);
    assert("java"@.len() != "libraries"@.len());
    assert("java"@.len() != "assets"@.len());
    assert("java"@.len() != "completed"@.len());
    assert("mods"@.len() != "libraries"@.len());
    assert("mods"@.len() != "assets"@.len());
    assert("mods"@.len() != "completed"@.len());
    assert("libraries"@[0] != "assets"@[0]);
    assert("libraries"@[0] != "completed"@[0]);
    assert("assets"@[0] != "completed"@[0]);
}

/// Within any one stage tag, the planned `current` counter never decreases:
/// an observer that filters the plan by tag sees a monotone progression.
/// Holds for any two positions `i <= j` of the plan that carry the same tag.
pub proof fn lemma_acquisition_plan_monotonic(
    n_mods: int,
    n_libraries: int,
    n_assets: int,
    i: int,
    j: int,
)
    requires
        n_mods >= 0,
        n_libraries >= 0,
        n_assets >= 0,
        0 <= i <= j < acquisition_plan_view(n_mods, n_libraries, n_assets).len(),
        acquisition_plan_view(n_mods, n_libraries, n_assets)[i].tag == acquisition_plan_view(
            n_mods,
            n_libraries,
            n_assets,
        )[j].tag,
    ensures
        acquisition_plan_view(n_mods, n_libraries, n_assets)[i].current <= acquisition_plan_view(
            n_mods,
            n_libraries,
            n_assets,
        )[j].current,
{
    lemma_stage_tags_distinct();
    let plan = acquisition_plan_view(n_mods, n_libraries, n_assets);
    let m0: int = 1;
    let l0: int = 1 + n_mods;
    let a0: int = 1 + n_mods + n_libraries;
    let c0: int = 1 + n_mods + n_libraries + n_assets;
    assert(plan.len() == c0 + 1);
    assert(plan[0].tag == "java"@);
    if 0 < i {
        if i < l0 {
            assert(plan[i].tag == "mods"@ && plan[i].current == i - m0 + 1);
        } else if i < a0 {
            assert(plan[i].tag == "libraries"@ && plan[i].current == i - l0 + 1);
        } else if i < c0 {
            assert(plan[i].tag == "assets"@ && plan[i].current == i - a0 + 1);
        } else {
            assert(plan[i].tag == "completed"@);
        }
    }
    if 0 < j {
        if j < l0 {
            assert(plan[j].tag == "mods"@ && plan[j].current == j - m0 + 1);
        } else if j < a0 {
            assert(plan[j].tag == "libraries"@ && plan[j].current == j - l0 + 1);
        } else if j < c0 {
            assert(plan[j].tag == "assets"@ && plan[j].current == j - a0 + 1);
        } else {
            assert(plan[j].tag == "completed"@);
        }
    }
}

} // verus!
