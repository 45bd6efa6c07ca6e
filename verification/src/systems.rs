//! The decisions that the game's systems make each frame.
//!
//! The systems see the objects of the game as parallel lists: position `i`
//! of each list describes the same object.
use crate::controls::{Controls, MouseState};
use crate::resources::{Help, Paused};
use crate::selection::{follow_selected, Selectable};
use crate::ships::{Commands, Formation};
use vstd::prelude::*;

verus! {

broadcast use vstd::seq_lib::group_seq_properties;

/// Whether `child` reaches `root` by following at most `steps` parent links;
/// every object reaches itself.
pub open spec fn descends_within(parents: Seq<Option<usize>>, child: int, root: int, steps: nat) -> bool
    decreases steps,
{
    child == root || (steps > 0 && 0 <= child < parents.len() && match parents[child] {
        Some(parent) => descends_within(parents, parent as int, root, (steps - 1) as nat),
        None => false,
    })
}

/// Whether `child` is `root` or one of its descendants.
pub open spec fn descends(parents: Seq<Option<usize>>, child: int, root: int) -> bool {
    exists|steps: nat| descends_within(parents, child, root, steps)
}

/// Whether `child` is one of `roots` or a descendant of one.
pub open spec fn descends_from_any(parents: Seq<Option<usize>>, child: int, roots: Seq<usize>) -> bool {
    exists|k: int| 0 <= k < roots.len() && descends(parents, child, #[trigger] roots[k] as int)
}

proof fn lemma_child_descends(parents: Seq<Option<usize>>, child: int, parent: usize, root: int)
    requires
        0 <= child < parents.len(),
        parents[child] == Some(parent),
        descends(parents, parent as int, root),
    ensures
        descends(parents, child, root),
{
    let steps = choose|steps: nat| descends_within(parents, parent as int, root, steps);
    assert(descends_within(parents, child, root, steps + 1));
}

proof fn lemma_distinct_below(s: Seq<usize>, n: usize)
    requires
        s.no_duplicates(),
        forall|k: int| 0 <= k < s.len() ==> #[trigger] s[k] < n,
    ensures
        s.len() <= n,
{
    s.unique_seq_to_set();
    let range = Set::<usize>::range(0, n);
    vstd::set_lib::range_set_properties::<usize>(0, n);
    assert forall|x: usize| s.to_set().contains(x) implies range.contains(x) by {
        let k = choose|k: int| 0 <= k < s.len() && s[k] == x;
        assert(s[k] < n);
    }
    vstd::set_lib::lemma_len_subset(s.to_set(), range);
}

/// Every object that descends from one of `roots`, each listed once; the
/// objects are the positions of `parents`, which gives each one's parent.
pub fn collect_descendants(roots: &Vec<usize>, parents: &Vec<Option<usize>>) -> (doomed: Vec<usize>)
    requires
        forall|k: int| 0 <= k < roots.len() ==> #[trigger] roots[k] < parents.len(),
    ensures
        doomed@.no_duplicates(),
        forall|k: int| 0 <= k < doomed.len() ==> #[trigger] doomed[k] < parents.len(),
        forall|i: int|
            0 <= i < parents.len() ==> (doomed@.contains(i as usize) <==> descends_from_any(
                parents@,
                i,
                roots@,
            )),
{
    let n = parents.len();
    let mut marked: Vec<bool> = Vec::new();
    while marked.len() < n
        invariant
            marked.len() <= n,
            forall|i: int| 0 <= i < marked.len() ==> !#[trigger] marked[i],
        decreases n - marked.len(),
    {
        marked.push(false);
    }
    let mut doomed: Vec<usize> = Vec::new();
    let mut r: usize = 0;
    while r < roots.len()
        invariant
            n == parents.len(),
            marked.len() == n,
            r <= roots.len(),
            forall|k: int| 0 <= k < roots.len() ==> #[trigger] roots[k] < n,
            doomed@.no_duplicates(),
            forall|k: int| 0 <= k < doomed.len() ==> #[trigger] doomed[k] < n,
            forall|i: int| 0 <= i < n ==> (#[trigger] marked[i] <==> doomed@.contains(i as usize)),
            forall|k: int| 0 <= k < doomed.len() ==> descends_from_any(parents@, #[trigger] doomed[k] as int, roots@),
            forall|k: int| 0 <= k < r ==> #[trigger] marked[roots[k] as int],
        decreases roots.len() - r,
    {
        let root = roots[r];
        if !marked[root] {
            proof {
                assert(descends_within(parents@, root as int, root as int, 0));
                assert(descends(parents@, root as int, roots@[r as int] as int));
                assert(!doomed@.contains(root));
            }
            marked.set(root, true);
            doomed.push(root);
        }
        r = r + 1;
    }
    // Every object on `doomed` before `head` has had its children marked.
    let mut head: usize = 0;
    proof {
        lemma_distinct_below(doomed@, n);
    }
    while head < doomed.len()
        invariant
            n == parents.len(),
            marked.len() == n,
            head <= doomed.len(),
            doomed.len() <= n,
            doomed@.no_duplicates(),
            forall|k: int| 0 <= k < roots.len() ==> #[trigger] roots[k] < n,
            forall|k: int| 0 <= k < roots.len() ==> #[trigger] marked[roots[k] as int],
            forall|k: int| 0 <= k < doomed.len() ==> #[trigger] doomed[k] < n,
            forall|i: int| 0 <= i < n ==> (#[trigger] marked[i] <==> doomed@.contains(i as usize)),
            forall|k: int| 0 <= k < doomed.len() ==> descends_from_any(parents@, #[trigger] doomed[k] as int, roots@),
            forall|k: int, c: int|
                0 <= k < head && 0 <= c < n && parents[c] == Some(#[trigger] doomed[k]) ==> #[trigger] marked[c],
        decreases n - head,
    {
        let current = doomed[head];
        let mut c: usize = 0;
        while c < n
            invariant
                n == parents.len(),
                marked.len() == n,
                head < doomed.len(),
                current == doomed[head as int],
                c <= n,
                doomed@.no_duplicates(),
                forall|k: int| 0 <= k < roots.len() ==> #[trigger] roots[k] < n,
                forall|k: int| 0 <= k < roots.len() ==> #[trigger] marked[roots[k] as int],
                forall|k: int| 0 <= k < doomed.len() ==> #[trigger] doomed[k] < n,
                forall|i: int| 0 <= i < n ==> (#[trigger] marked[i] <==> doomed@.contains(i as usize)),
                forall|k: int| 0 <= k < doomed.len() ==> descends_from_any(parents@, #[trigger] doomed[k] as int, roots@),
                forall|k: int, c2: int|
                    0 <= k < head && 0 <= c2 < n && parents[c2] == Some(#[trigger] doomed[k]) ==> #[trigger] marked[c2],
                forall|c2: int| 0 <= c2 < c && parents[c2] == Some(current) ==> #[trigger] marked[c2],
            decreases n - c,
        {
            if !marked[c] {
                match parents[c] {
                    Some(parent) => {
                        if parent == current {
                            proof {
                                let k = choose|k: int| 0 <= k < roots.len() && descends(parents@, current as int, #[trigger] roots@[k] as int);
                                lemma_child_descends(parents@, c as int, current, roots@[k] as int);
                                assert(!doomed@.contains(c));
                            }
                            let ghost before = doomed@;
                            marked.set(c, true);
                            doomed.push(c);
                            proof {
                                assert forall|k: int, c2: int|
                                    0 <= k < head && 0 <= c2 < n && parents[c2] == Some(#[trigger] doomed[k]) implies #[trigger] marked[c2] by {
                                    assert(doomed[k] == before[k]);
                                }
                            }
                        }
                    },
                    None => {},
                }
            }
            c = c + 1;
        }
        head = head + 1;
        proof {
            lemma_distinct_below(doomed@, n);
        }
    }
    proof {
        assert forall|i: int| 0 <= i < n && descends_from_any(parents@, i, roots@) implies doomed@.contains(
            i as usize,
        ) by {
            let k = choose|k: int| 0 <= k < roots.len() && descends(parents@, i, #[trigger] roots@[k] as int);
            let steps = choose|steps: nat| descends_within(parents@, i, roots@[k] as int, steps);
            lemma_closed_under_children(parents@, marked@, doomed@, roots@[k] as int, i, steps);
        }
    }
    doomed
}

/// When the marked objects are exactly those on `doomed`, the root is
/// marked, and the children of every object on `doomed` are marked, every
/// descendant of the root is marked.
proof fn lemma_closed_under_children(
    parents: Seq<Option<usize>>,
    marked: Seq<bool>,
    doomed: Seq<usize>,
    root: int,
    i: int,
    steps: nat,
)
    requires
        marked.len() == parents.len(),
        0 <= root < parents.len(),
        marked[root],
        forall|j: int| 0 <= j < parents.len() ==> (#[trigger] marked[j] <==> doomed.contains(j as usize)),
        forall|k: int, c: int|
            0 <= k < doomed.len() && 0 <= c < parents.len() && parents[c] == Some(#[trigger] doomed[k]) ==> #[trigger] marked[c],
        0 <= i < parents.len(),
        descends_within(parents, i, root, steps),
    ensures
        marked[i],
    decreases steps,
{
    if i != root {
        let parent = parents[i].unwrap();
        assert(descends_within(parents, parent as int, root, (steps - 1) as nat));
        if parent as int == root {
        } else {
            lemma_closed_under_children(parents, marked, doomed, root, parent as int, (steps - 1) as nat);
        }
        assert(marked[parent as int]);
        let k = choose|k: int| 0 <= k < doomed.len() && doomed[k] == parent;
        assert(parents[i] == Some(doomed[k]));
    }
}

/// Deletes an object together with everything that descends from it.
pub fn delete_entity(entity: usize, parents: &Vec<Option<usize>>) -> (doomed: Vec<usize>)
    requires
        entity < parents.len(),
    ensures
        doomed@.no_duplicates(),
        forall|k: int| 0 <= k < doomed.len() ==> #[trigger] doomed[k] < parents.len(),
        forall|i: int|
            0 <= i < parents.len() ==> (doomed@.contains(i as usize) <==> descends(
                parents@,
                i,
                entity as int,
            )),
{
    let roots = vec![entity];
    let doomed = collect_descendants(&roots, parents);
    proof {
        assert forall|i: int| 0 <= i < parents.len() implies (descends_from_any(parents@, i, roots@)
            <==> descends(parents@, i, entity as int)) by {
            if descends(parents@, i, entity as int) {
                assert(roots@[0] == entity);
            }
        }
    }
    doomed
}

/// Whether `child` is a marked object or a descendant of one.
pub open spec fn descends_from_marked(parents: Seq<Option<usize>>, child: int, marked: Seq<bool>) -> bool {
    exists|r: int| 0 <= r < marked.len() && #[trigger] marked[r] && descends(parents, child, r)
}

/// Removes the objects whose health has run out.
pub struct DestroyShips;

impl DestroyShips {
    /// Every object to delete: those whose health has run out (`destroyed`)
    /// and everything that descends from them.
    pub fn run(&mut self, destroyed: &Vec<bool>, parents: &Vec<Option<usize>>) -> (doomed: Vec<usize>)
        requires
            destroyed.len() == parents.len(),
        ensures
            doomed@.no_duplicates(),
            forall|k: int| 0 <= k < doomed.len() ==> #[trigger] doomed[k] < parents.len(),
            forall|i: int|
                0 <= i < parents.len() ==> (doomed@.contains(i as usize) <==> #[trigger] descends_from_marked(
                    parents@,
                    i,
                    destroyed@,
                )),
    {
        let n = destroyed.len();
        let mut roots: Vec<usize> = Vec::new();
        let mut i: usize = 0;
        while i < n
            invariant
                n == destroyed.len(),
                n == parents.len(),
                i <= n,
                forall|k: int| 0 <= k < roots.len() ==> #[trigger] roots[k] < i && destroyed[roots[k] as int],
                forall|r: int| 0 <= r < i && #[trigger] destroyed[r] ==> roots@.contains(r as usize),
            decreases n - i,
        {
            if destroyed[i] {
                roots.push(i);
                proof {
                    assert(roots[roots.len() - 1] == i);
                }
            }
            i = i + 1;
        }
        let doomed = collect_descendants(&roots, parents);
        proof {
            assert forall|c: int| 0 <= c < parents.len() implies (descends_from_any(parents@, c, roots@)
                <==> descends_from_marked(parents@, c, destroyed@)) by {
                if descends_from_any(parents@, c, roots@) {
                    let k = choose|k: int| 0 <= k < roots.len() && descends(parents@, c, #[trigger] roots@[k] as int);
                    assert(destroyed[roots@[k] as int]);
                }
                if exists|r: int| 0 <= r < destroyed.len() && #[trigger] destroyed[r] && descends(parents@, c, r) {
                    let r = choose|r: int| 0 <= r < destroyed.len() && #[trigger] destroyed[r] && descends(parents@, c, r);
                    assert(roots@.contains(r as usize));
                    let k = choose|k: int| 0 <= k < roots.len() && roots@[k] == r as usize;
                    assert(descends(parents@, c, roots@[k] as int));
                }
            }
        }
        doomed
    }
}

/// Zeroes the health of the selected objects while the delete key is held.
pub struct TestDeleteSystem;

impl TestDeleteSystem {
    /// The objects whose health drops to nothing: the selected ones, while
    /// the delete key is held, and none otherwise.
    pub fn run(&mut self, delete: bool, selected: &Vec<bool>) -> (killed: Vec<usize>)
        ensures
            forall|k: int|
                0 <= k < killed.len() ==> #[trigger] killed[k] < selected.len() && delete
                    && selected[killed[k] as int],
            forall|i: int|
                0 <= i < selected.len() && delete && #[trigger] selected[i] ==> killed@.contains(
                    i as usize,
                ),
            forall|k: int, l: int| 0 <= k < l < killed.len() ==> killed[k] < killed[l],
    {
        let mut killed: Vec<usize> = Vec::new();
        if delete {
            let n = selected.len();
            let mut i: usize = 0;
            while i < n
                invariant
                    n == selected.len(),
                    delete,
                    i <= n,
                    forall|k: int|
                        0 <= k < killed.len() ==> #[trigger] killed[k] < i && selected[killed[k] as int],
                    forall|j: int| 0 <= j < i && #[trigger] selected[j] ==> killed@.contains(j as usize),
                    forall|k: int, l: int| 0 <= k < l < killed.len() ==> killed[k] < killed[l],
                decreases n - i,
            {
                if selected[i] {
                    killed.push(i);
                    proof {
                        assert(killed[killed.len() - 1] == i);
                    }
                }
                i = i + 1;
            }
        }
        killed
    }
}

/// Leaves a trail of smoke behind moving missiles, one puff every other frame.
pub struct SpawnSmokeSystem;

impl SpawnSmokeSystem {
    /// Unless the game is paused, each object that has a position (`placed`)
    /// puffs smoke when its counter is even, and its counter flips between 0
    /// and 1; returns which objects puff.
    pub fn run(&mut self, paused: bool, placed: &Vec<bool>, counters: &mut Vec<u8>) -> (puffs: Vec<bool>)
        requires
            placed.len() == old(counters).len(),
        ensures
            puffs.len() == placed.len(),
            final(counters).len() == old(counters).len(),
            forall|i: int|
                #![trigger puffs[i]]
                #![trigger final(counters)[i]]
                0 <= i < placed.len() ==> (puffs[i], final(counters)[i]) == smoke_step(
                    paused,
                    placed[i],
                    old(counters)[i],
                ),
    {
        let n = placed.len();
        let mut puffs: Vec<bool> = Vec::new();
        let mut i: usize = 0;
        while i < n
            invariant
                n == placed.len(),
                n == counters.len(),
                n == old(counters).len(),
                i <= n,
                puffs.len() == i,
                forall|j: int|
                    #![trigger puffs[j]]
                    #![trigger counters[j]]
                    0 <= j < i ==> (puffs[j], counters[j]) == smoke_step(paused, placed[j], old(counters)[j]),
                forall|j: int| i <= j < n ==> #[trigger] counters[j] == old(counters)[j],
            decreases n - i,
        {
            let counter = counters[i];
            if !paused && placed[i] {
                puffs.push(counter % 2 == 0);
                let next = ((counter % 2) + 1) % 2;
                proof {
                    assert(((counter % 2) + 1) % 2 == (counter + 1) % 2) by (bit_vector);
                }
                counters.set(i, next);
            } else {
                puffs.push(false);
            }
            proof {
                assert((puffs[i as int], counters[i as int]) == smoke_step(paused, placed[i as int], old(counters)[i as int]));
            }
            i = i + 1;
        }
        puffs
    }
}

/// Whether an object puffs smoke in this frame, and its counter afterwards.
pub open spec fn smoke_step(paused: bool, placed: bool, counter: u8) -> (bool, u8) {
    if !paused && placed {
        (counter % 2 == 0, ((counter + 1) % 2) as u8)
    } else {
        (false, counter)
    }
}

/// A key of the keyboard, as far as the game tells keys apart.
#[derive(Debug, Copy, Clone, PartialEq, Eq, Structural)]
pub enum Key {
    C,
    P,
    H,
    Slash,
    Comma,
    Period,
    Left,
    A,
    Right,
    D,
    Up,
    W,
    Down,
    S,
    LShift,
    T,
    Back,
    Delete,
    Z,
    L,
    Other,
}

/// A button of the mouse.
#[derive(Debug, Copy, Clone, PartialEq, Eq, Structural)]
pub enum MouseButton {
    Left,
    Right,
    Middle,
    Other,
}

/// What a movement of the mouse drives.
#[derive(Debug, Copy, Clone, PartialEq, Eq, Structural)]
pub enum MouseMove {
    TurnCamera,
    MovePlane,
    Nothing,
}

/// The controls after `key` is pressed (`pressed`) or released.
pub open spec fn controls_after_key<P>(controls: Controls<P>, key: Key, pressed: bool) -> Controls<P> {
    match key {
        Key::Left | Key::A => Controls { left: pressed, ..controls },
        Key::Right | Key::D => Controls { right: pressed, ..controls },
        Key::Up | Key::W => Controls { forwards: pressed, ..controls },
        Key::Down | Key::S => Controls { back: pressed, ..controls },
        Key::LShift | Key::T => Controls { shift: pressed, ..controls },
        Key::Back | Key::Delete => Controls { delete: pressed, ..controls },
        Key::Z => Controls { save: pressed, ..controls },
        Key::L => Controls { load: pressed, ..controls },
        _ => controls,
    }
}

/// Each held key sets its own flag of the controls to whether it is pressed,
/// and changes nothing else: the arrows and WASD steer, left shift and T
/// hold shift, backspace and delete hold delete, Z saves and L loads; any
/// other key leaves the controls as they are.
pub proof fn law_keys_set_their_own_flag<P>(c: Controls<P>, pressed: bool)
    ensures
        controls_after_key(c, Key::Left, pressed) == (Controls { left: pressed, ..c }),
        controls_after_key(c, Key::A, pressed) == (Controls { left: pressed, ..c }),
        controls_after_key(c, Key::Right, pressed) == (Controls { right: pressed, ..c }),
        controls_after_key(c, Key::D, pressed) == (Controls { right: pressed, ..c }),
        controls_after_key(c, Key::Up, pressed) == (Controls { forwards: pressed, ..c }),
        controls_after_key(c, Key::W, pressed) == (Controls { forwards: pressed, ..c }),
        controls_after_key(c, Key::Down, pressed) == (Controls { back: pressed, ..c }),
        controls_after_key(c, Key::S, pressed) == (Controls { back: pressed, ..c }),
        controls_after_key(c, Key::LShift, pressed) == (Controls { shift: pressed, ..c }),
        controls_after_key(c, Key::T, pressed) == (Controls { shift: pressed, ..c }),
        controls_after_key(c, Key::Back, pressed) == (Controls { delete: pressed, ..c }),
        controls_after_key(c, Key::Delete, pressed) == (Controls { delete: pressed, ..c }),
        controls_after_key(c, Key::Z, pressed) == (Controls { save: pressed, ..c }),
        controls_after_key(c, Key::L, pressed) == (Controls { load: pressed, ..c }),
        controls_after_key(c, Key::C, pressed) == c,
        controls_after_key(c, Key::P, pressed) == c,
        controls_after_key(c, Key::H, pressed) == c,
        controls_after_key(c, Key::Slash, pressed) == c,
        controls_after_key(c, Key::Comma, pressed) == c,
        controls_after_key(c, Key::Period, pressed) == c,
        controls_after_key(c, Key::Other, pressed) == c,
{
}

/// The game-wide switches that the keyboard toggles.
#[derive(Debug, Copy, Clone, PartialEq, Eq, Structural)]
pub struct Switches {
    pub paused: Paused,
    pub help: Help,
    pub debug: crate::resources::Debug,
    pub formation: Formation,
}

/// Turns the window's events into changes of the controls and switches.
pub struct EventHandlerSystem;

impl EventHandlerSystem {
    /// A key was pressed (`pressed`) or released. C makes the camera follow
    /// the selection; on a press, P pauses, H shows the help, / shows the
    /// debug view, and , and . step through the formations; the movement,
    /// shift, delete, save and load keys are held while pressed.
    pub fn handle_key<P: Copy>(
        &mut self,
        key: Key,
        pressed: bool,
        controls: &mut Controls<P>,
        switches: &mut Switches,
        selectable: &mut Vec<Selectable>,
    )
        ensures
            *final(controls) == controls_after_key(*old(controls), key, pressed),
            final(switches).paused.0 == (old(switches).paused.0 != (key == Key::P && pressed)),
            final(switches).help.0 == (old(switches).help.0 != (key == Key::H && pressed)),
            final(switches).debug.0 == (old(switches).debug.0 != (key == Key::Slash && pressed)),
            final(switches).formation == if (key == Key::Comma || key == Key::Period) && pressed {
                if old(switches).formation == Formation::Screen {
                    Formation::DeltaWing
                } else {
                    Formation::Screen
                }
            } else {
                old(switches).formation
            },
            final(selectable).len() == old(selectable).len(),
            forall|i: int|
                0 <= i < old(selectable).len() ==> #[trigger] final(selectable)[i] == if key
                    == Key::C {
                    Selectable {
                        selected: old(selectable)[i].selected,
                        camera_following: old(selectable)[i].selected,
                    }
                } else {
                    old(selectable)[i]
                },
    {
        if key == Key::C {
            follow_selected(selectable);
        }
        Self::toggle_switches(key, pressed, switches);
        Self::hold_key(key, pressed, controls);
    }

    fn toggle_switches(key: Key, pressed: bool, switches: &mut Switches)
        ensures
            final(switches).paused.0 == (old(switches).paused.0 != (key == Key::P && pressed)),
            final(switches).help.0 == (old(switches).help.0 != (key == Key::H && pressed)),
            final(switches).debug.0 == (old(switches).debug.0 != (key == Key::Slash && pressed)),
            final(switches).formation == if (key == Key::Comma || key == Key::Period) && pressed {
                if old(switches).formation == Formation::Screen {
                    Formation::DeltaWing
                } else {
                    Formation::Screen
                }
            } else {
                old(switches).formation
            },
    {
        if pressed {
            match key {
                Key::P => switches.paused.switch(),
                Key::H => switches.help.switch(),
                Key::Slash => switches.debug.0 = !switches.debug.0,
                Key::Comma => {
                    switches.formation.rotate_left();
                },
                Key::Period => {
                    switches.formation.rotate_right();
                },
                _ => {},
            }
        }
    }

    fn hold_key<P: Copy>(key: Key, pressed: bool, controls: &mut Controls<P>)
        ensures
            *final(controls) == controls_after_key(*old(controls), key, pressed),
    {
        match key {
            Key::Left | Key::A => controls.left = pressed,
            Key::Right | Key::D => controls.right = pressed,
            Key::Up | Key::W => controls.forwards = pressed,
            Key::Down | Key::S => controls.back = pressed,
            Key::LShift | Key::T => controls.shift = pressed,
            Key::Back | Key::Delete => controls.delete = pressed,
            Key::Z => controls.save = pressed,
            Key::L => controls.load = pressed,
            _ => {},
        }
    }

    /// The mouse moved to `mouse`. While the right button drags, the movement
    /// turns the camera; otherwise, with shift held, it raises or lowers the
    /// plane of movement.
    pub fn handle_mouse_move<P: Copy>(&mut self, mouse: P, controls: &mut Controls<P>) -> (effect: MouseMove)
        ensures
            *final(controls) == (Controls { mouse, ..*old(controls) }),
            effect == if old(controls).right_state is Dragging {
                MouseMove::TurnCamera
            } else if old(controls).shift {
                MouseMove::MovePlane
            } else {
                MouseMove::Nothing
            },
    {
        controls.set_mouse(mouse);
        if controls.right_dragging() {
            MouseMove::TurnCamera
        } else if controls.shift {
            MouseMove::MovePlane
        } else {
            MouseMove::Nothing
        }
    }

    /// A mouse button was pressed (`pressed`) or released.
    pub fn handle_button<P: Copy>(&mut self, button: MouseButton, pressed: bool, controls: &mut Controls<P>)
        ensures
            *final(controls) == match button {
                MouseButton::Left => Controls {
                    left_state: crate::controls::state_after_handle(old(controls).left_state, old(controls).mouse, pressed),
                    ..*old(controls)
                },
                MouseButton::Right => Controls {
                    right_state: crate::controls::state_after_handle(old(controls).right_state, old(controls).mouse, pressed),
                    ..*old(controls)
                },
                MouseButton::Middle => Controls {
                    middle_state: crate::controls::state_after_handle(old(controls).middle_state, old(controls).mouse, pressed),
                    ..*old(controls)
                },
                MouseButton::Other => *old(controls),
            },
    {
        match button {
            MouseButton::Left => controls.handle_left(pressed),
            MouseButton::Right => controls.handle_right(pressed),
            MouseButton::Middle => controls.handle_middle(pressed),
            MouseButton::Other => {},
        }
    }
}

/// Moves the mouse buttons on by one frame.
pub struct UpdateControlsSystem;

impl UpdateControlsSystem {
    /// Advances the controls; the flags say, per button (left, middle,
    /// right), whether the mouse is far enough from where it went down to
    /// start a drag.
    pub fn run<P: Copy>(&mut self, controls: &mut Controls<P>, left_beyond: bool, middle_beyond: bool, right_beyond: bool)
        ensures
            *final(controls) == (Controls {
                save: false,
                load: false,
                left_state: crate::controls::state_after_update(old(controls).left_state, left_beyond),
                middle_state: crate::controls::state_after_update(old(controls).middle_state, middle_beyond),
                right_state: crate::controls::state_after_update(old(controls).right_state, right_beyond),
                ..*old(controls)
            }),
    {
        controls.update(left_beyond, middle_beyond, right_beyond);
    }
}

/// Carries out the first order of each ship.
pub struct ShipMovementSystem;

impl ShipMovementSystem {
    /// Unless the game is paused, drops the first order of a ship once it is
    /// done; `outcome` says whether the first order is done, and is `None`
    /// when the objects that it refers to are gone, which also ends it.
    pub fn finish_command<C>(&mut self, paused: bool, commands: &mut Commands<C>, outcome: Option<bool>)
        ensures
            final(commands).0@ == if !paused && old(commands).0.len() > 0 && match outcome {
                Some(done) => done,
                None => true,
            } {
                old(commands).0@.drop_first()
            } else {
                old(commands).0@
            },
    {
        if paused {
            return;
        }
        let finished = commands.0.len() > 0 && match outcome {
            Some(done) => done,
            None => true,
        };
        if finished {
            commands.0.remove(0);
        }
    }
}

} // verus!
