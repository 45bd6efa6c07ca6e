//! Which objects the player has selected, and which ones the camera follows.
//!
//! The systems here see the objects as parallel lists: position `i` of each
//! list describes the same object.
use vstd::prelude::*;

verus! {

broadcast use vstd::seq_lib::group_seq_properties;

/// Whether an object is selected, and whether the camera follows it.
#[derive(Debug, Copy, Clone, PartialEq, Eq, Structural)]
pub struct Selectable {
    pub selected: bool,
    pub camera_following: bool,
}

impl Selectable {
    /// An object that the camera does not follow.
    pub fn new(selected: bool) -> (selectable: Self)
        ensures
            selectable == (Selectable { selected, camera_following: false }),
    {
        Self { selected, camera_following: false }
    }
}

/// Whose side an object is on.
#[derive(Debug, Copy, Clone, PartialEq, Eq, Structural)]
pub enum Side {
    Friendly,
    Neutral,
    Enemy,
}

/// Whether an object is selected after a left click; `under` is the object
/// under the mouse, if it can be selected.
pub open spec fn selected_after_click(
    old: Selectable,
    i: int,
    shift: bool,
    under: Option<usize>,
) -> bool {
    let kept = shift && old.selected;
    if under == Some(i as usize) {
        !kept
    } else {
        kept
    }
}

/// Whether an object is selected after a drag has ended, where `inside` says
/// whether the object shows inside the dragged rectangle, and is `None` when
/// the object is behind the camera.
pub open spec fn selected_after_drag(old: Selectable, shift: bool, inside: Option<bool>) -> bool {
    match inside {
        Some(inside) => if !shift {
            inside
        } else if inside {
            !old.selected
        } else {
            old.selected
        },
        None => if !shift {
            false
        } else {
            old.selected
        },
    }
}

/// With shift held, a second click on the same object undoes the first, and
/// leaves every other object as it was.
pub proof fn law_shift_click_twice(old: Selectable, i: int, under: Option<usize>)
    ensures
        selected_after_click(
            Selectable { selected: selected_after_click(old, i, true, under), ..old },
            i,
            true,
            under,
        ) == old.selected,
{
}

/// With shift held, dragging the same rectangle twice undoes the first drag.
pub proof fn law_shift_drag_twice(old: Selectable, inside: Option<bool>)
    ensures
        selected_after_drag(
            Selectable { selected: selected_after_drag(old, true, inside), ..old },
            true,
            inside,
        ) == old.selected,
{
}

/// Without shift, a drag leaves selected exactly the objects that show inside
/// the rectangle, whatever was selected before.
pub proof fn law_drag_replaces(a: Selectable, b: Selectable, inside: Option<bool>)
    ensures
        selected_after_drag(a, false, inside) == selected_after_drag(b, false, inside),
        selected_after_drag(a, false, inside) == (inside == Some(true)),
{
}

/// Selects with the left mouse button.
pub struct LeftClickSystem;

impl LeftClickSystem {
    /// On a left click, the object under the mouse (`under`) is toggled, and
    /// unless shift is held every other object is unselected.
    pub fn run(&mut self, clicked: bool, shift: bool, under: Option<usize>, selectable: &mut Vec<Selectable>)
        ensures
            final(selectable).len() == old(selectable).len(),
            forall|i: int|
                #![trigger final(selectable)[i]]
                0 <= i < old(selectable).len() ==> {
                    &&& final(selectable)[i].camera_following == old(selectable)[i].camera_following
                    &&& final(selectable)[i].selected == if clicked {
                        selected_after_click(old(selectable)[i], i, shift, under)
                    } else {
                        old(selectable)[i].selected
                    }
                },
    {
        if clicked {
            let n = selectable.len();
            let mut i: usize = 0;
            while i < n
                invariant
                    n == selectable.len(),
                    n == old(selectable).len(),
                    i <= n,
                    forall|j: int|
                        0 <= j < n ==> #[trigger] selectable[j].camera_following
                            == old(selectable)[j].camera_following,
                    forall|j: int|
                        0 <= j < i ==> #[trigger] selectable[j].selected == (shift
                            && old(selectable)[j].selected),
                    forall|j: int| i <= j < n ==> #[trigger] selectable[j] == old(selectable)[j],
                decreases n - i,
            {
                if !shift {
                    let following = selectable[i].camera_following;
                    selectable.set(i, Selectable { selected: false, camera_following: following });
                }
                i = i + 1;
            }
            match under {
                Some(k) => {
                    if k < n {
                        let current = selectable[k];
                        selectable.set(
                            k,
                            Selectable {
                                selected: !current.selected,
                                camera_following: current.camera_following,
                            },
                        );
                    }
                },
                None => {},
            }
        }
    }
}

/// Centres the camera with the middle mouse button.
pub struct MiddleClickSystem;

/// Makes the camera follow exactly the selected objects.
pub fn follow_selected(selectable: &mut Vec<Selectable>)
    ensures
        final(selectable).len() == old(selectable).len(),
        forall|i: int|
            0 <= i < old(selectable).len() ==> #[trigger] final(selectable)[i] == (Selectable {
                selected: old(selectable)[i].selected,
                camera_following: old(selectable)[i].selected,
            }),
{
    let n = selectable.len();
    let mut i: usize = 0;
    while i < n
        invariant
            n == selectable.len(),
            n == old(selectable).len(),
            i <= n,
            forall|j: int|
                0 <= j < i ==> #[trigger] selectable[j] == (Selectable {
                    selected: old(selectable)[j].selected,
                    camera_following: old(selectable)[j].selected,
                }),
            forall|j: int| i <= j < n ==> #[trigger] selectable[j] == old(selectable)[j],
        decreases n - i,
    {
        let selected = selectable[i].selected;
        selectable.set(i, Selectable { selected, camera_following: selected });
        i = i + 1;
    }
}

impl MiddleClickSystem {
    /// On a middle click, the camera follows exactly the selected objects.
    pub fn run(&mut self, clicked: bool, selectable: &mut Vec<Selectable>)
        ensures
            final(selectable).len() == old(selectable).len(),
            forall|i: int|
                0 <= i < old(selectable).len() ==> #[trigger] final(selectable)[i] == if clicked {
                    Selectable {
                        selected: old(selectable)[i].selected,
                        camera_following: old(selectable)[i].selected,
                    }
                } else {
                    old(selectable)[i]
                },
    {
        if clicked {
            follow_selected(selectable);
        }
    }
}

/// Selects the objects inside a rectangle dragged with the left mouse button.
pub struct DragSelectSystem;

impl DragSelectSystem {
    /// When a drag has ended (`dragged`), each object is selected if it shows
    /// inside the rectangle; with shift held, those inside are toggled and the
    /// others keep their selection.
    pub fn run(&mut self, dragged: bool, shift: bool, inside: &Vec<Option<bool>>, selectable: &mut Vec<Selectable>)
        requires
            inside.len() == old(selectable).len(),
        ensures
            final(selectable).len() == old(selectable).len(),
            forall|i: int|
                #![trigger final(selectable)[i]]
                0 <= i < old(selectable).len() ==> {
                    &&& final(selectable)[i].camera_following == old(selectable)[i].camera_following
                    &&& final(selectable)[i].selected == if dragged {
                        selected_after_drag(old(selectable)[i], shift, inside[i])
                    } else {
                        old(selectable)[i].selected
                    }
                },
    {
        if dragged {
            let n = selectable.len();
            let mut i: usize = 0;
            while i < n
                invariant
                    n == selectable.len(),
                    n == old(selectable).len(),
                    n == inside.len(),
                    i <= n,
                    forall|j: int|
                        #![trigger selectable[j]]
                        0 <= j < i ==> {
                            &&& selectable[j].camera_following
                                == old(selectable)[j].camera_following
                            &&& selectable[j].selected == selected_after_drag(
                                old(selectable)[j],
                                shift,
                                inside[j],
                            )
                        },
                    forall|j: int| i <= j < n ==> #[trigger] selectable[j] == old(selectable)[j],
                decreases n - i,
            {
                let current = selectable[i];
                proof {
                    assert(current == old(selectable)[i as int]);
                }
                let selected = match inside[i] {
                    Some(shown) => if !shift {
                        shown
                    } else if shown {
                        !current.selected
                    } else {
                        current.selected
                    },
                    None => if !shift {
                        false
                    } else {
                        current.selected
                    },
                };
                proof {
                    assert(selected == selected_after_drag(old(selectable)[i as int], shift, inside[i as int]));
                }
                selectable.set(i, Selectable { selected, camera_following: current.camera_following });
                i = i + 1;
            }
        }
    }
}

/// Moves the camera, and keeps it on the objects that it follows.
pub struct StepCameraSystem;

impl StepCameraSystem {
    /// When the camera is moved by hand (`moved`), it stops following every
    /// object; returns the positions of the objects it still follows, whose
    /// average it moves towards.
    pub fn run(&mut self, moved: bool, selectable: &mut Vec<Selectable>) -> (followed: Vec<usize>)
        ensures
            final(selectable).len() == old(selectable).len(),
            forall|i: int|
                0 <= i < old(selectable).len() ==> #[trigger] final(selectable)[i] == if moved {
                    Selectable { selected: old(selectable)[i].selected, camera_following: false }
                } else {
                    old(selectable)[i]
                },
            forall|k: int|
                0 <= k < followed.len() ==> #[trigger] followed[k] < final(selectable).len()
                    && final(selectable)[followed[k] as int].camera_following,
            forall|i: int|
                0 <= i < final(selectable).len() && (#[trigger] final(selectable)[i]).camera_following
                    ==> followed@.contains(i as usize),
            forall|k: int, l: int| 0 <= k < l < followed.len() ==> followed[k] < followed[l],
    {
        let n = selectable.len();
        if moved {
            let mut i: usize = 0;
            while i < n
                invariant
                    n == selectable.len(),
                    n == old(selectable).len(),
                    i <= n,
                    forall|j: int|
                        0 <= j < i ==> #[trigger] selectable[j] == (Selectable {
                            selected: old(selectable)[j].selected,
                            camera_following: false,
                        }),
                    forall|j: int| i <= j < n ==> #[trigger] selectable[j] == old(selectable)[j],
                decreases n - i,
            {
                let selected = selectable[i].selected;
                selectable.set(i, Selectable { selected, camera_following: false });
                i = i + 1;
            }
        }
        let mut followed: Vec<usize> = Vec::new();
        let mut i: usize = 0;
        while i < n
            invariant
                n == selectable.len(),
                i <= n,
                forall|k: int|
                    0 <= k < followed.len() ==> #[trigger] followed[k] < i
                        && selectable[followed[k] as int].camera_following,
                forall|j: int|
                    0 <= j < i && (#[trigger] selectable[j]).camera_following ==> followed@.contains(
                        j as usize,
                    ),
                forall|k: int, l: int| 0 <= k < l < followed.len() ==> followed[k] < followed[l],
            decreases n - i,
        {
            if selectable[i].camera_following {
                followed.push(i);
                proof {
                    assert(followed[followed.len() - 1] == i);
                }
            }
            i = i + 1;
        }
        followed
    }
}

/// Finds the centre of the selected friendly objects.
pub struct AveragePositionSystem;

impl AveragePositionSystem {
    /// The positions of the objects that are selected and friendly, in order;
    /// their average position is the centre of the selection.
    pub fn run(&mut self, selectable: &Vec<Selectable>, side: &Vec<Side>) -> (chosen: Vec<usize>)
        requires
            selectable.len() == side.len(),
        ensures
            forall|k: int|
                0 <= k < chosen.len() ==> #[trigger] chosen[k] < selectable.len()
                    && selectable[chosen[k] as int].selected && side[chosen[k] as int]
                    == Side::Friendly,
            forall|i: int|
                0 <= i < selectable.len() && (#[trigger] selectable[i]).selected && side[i]
                    == Side::Friendly ==> chosen@.contains(i as usize),
            forall|k: int, l: int| 0 <= k < l < chosen.len() ==> chosen[k] < chosen[l],
    {
        let n = selectable.len();
        let mut chosen: Vec<usize> = Vec::new();
        let mut i: usize = 0;
        while i < n
            invariant
                n == selectable.len(),
                n == side.len(),
                i <= n,
                forall|k: int|
                    0 <= k < chosen.len() ==> #[trigger] chosen[k] < i
                        && selectable[chosen[k] as int].selected && side[chosen[k] as int]
                        == Side::Friendly,
                forall|j: int|
                    0 <= j < i && (#[trigger] selectable[j]).selected && side[j] == Side::Friendly
                        ==> chosen@.contains(j as usize),
                forall|k: int, l: int| 0 <= k < l < chosen.len() ==> chosen[k] < chosen[l],
            decreases n - i,
        {
            if selectable[i].selected && side[i] == Side::Friendly {
                chosen.push(i);
                proof {
                    assert(chosen[chosen.len() - 1] == i);
                }
            }
            i = i + 1;
        }
        chosen
    }
}

} // verus!
