//! Input state: which movement keys are held, the camera step they imply,
//! and the file-kind checks the asset carousel filters with.

use vstd::prelude::*;
use vstd::string::StrSliceExecFns;

verus! {

/// The movement keys the viewer reacts to.
#[derive(Clone, Copy, PartialEq, Eq, Structural, Debug)]
pub enum MoveKey {
    Forward,
    Left,
    Backward,
    Right,
    Up,
    Down,
}

/// Which movement keys are currently held.
#[derive(Clone, Copy, PartialEq, Eq, Structural, Debug, Default)]
pub struct KeyStates {
    pub forward: bool,
    pub backward: bool,
    pub left: bool,
    pub right: bool,
    pub up: bool,
    pub down: bool,
}

pub open spec fn b2i(b: bool) -> int {
    if b {
        1
    } else {
        0
    }
}

impl KeyStates {
    /// Records a key going down or up, leaving every other key as it was.
    pub fn set_pressed(&mut self, key: MoveKey, pressed: bool)
        ensures
            final(self).forward == (if key == MoveKey::Forward {
                pressed
            } else {
                old(self).forward
            }),
            final(self).backward == (if key == MoveKey::Backward {
                pressed
            } else {
                old(self).backward
            }),
            final(self).left == (if key == MoveKey::Left {
                pressed
            } else {
                old(self).left
            }),
            final(self).right == (if key == MoveKey::Right {
                pressed
            } else {
                old(self).right
            }),
            final(self).up == (if key == MoveKey::Up {
                pressed
            } else {
                old(self).up
            }),
            final(self).down == (if key == MoveKey::Down {
                pressed
            } else {
                old(self).down
            }),
    {
        match key {
            MoveKey::Forward => self.forward = pressed,
            MoveKey::Backward => self.backward = pressed,
            MoveKey::Left => self.left = pressed,
            MoveKey::Right => self.right = pressed,
            MoveKey::Up => self.up = pressed,
            MoveKey::Down => self.down = pressed,
        }
    }

    /// The per-axis camera step the held keys imply: opposite keys cancel.
    /// Left minus right, down minus up, forward minus backward — the shell
    /// scales each by the frame time.
    pub fn translation_steps(&self) -> (r: (i32, i32, i32))
        ensures
            r.0 == b2i(self.left) - b2i(self.right),
            r.1 == b2i(self.down) - b2i(self.up),
            r.2 == b2i(self.forward) - b2i(self.backward),
    {
        (
            (if self.left {
                1
            } else {
                0
            }) - (if self.right {
                1
            } else {
                0
            }),
            (if self.down {
                1
            } else {
                0
            }) - (if self.up {
                1
            } else {
                0
            }),
            (if self.forward {
                1
            } else {
                0
            }) - (if self.backward {
                1
            } else {
                0
            }),
        )
    }
}

/// Index of the first character after the last `/`; 0 when the path has
/// no separator.
pub open spec fn last_sep(s: Seq<char>) -> int
    decreases s.len(),
{
    if s.len() == 0 {
        0
    } else if s.last() == '/' {
        s.len() as int
    } else {
        last_sep(s.drop_last())
    }
}

/// Index of the last `.`; -1 when the path has none.
pub open spec fn last_dot(s: Seq<char>) -> int
    decreases s.len(),
{
    if s.len() == 0 {
        -1
    } else if s.last() == '.' {
        s.len() - 1
    } else {
        last_dot(s.drop_last())
    }
}

/// The path's extension: what follows the last `.` of the file name,
/// provided that dot is not the file name's first character.
pub open spec fn extension_of(s: Seq<char>) -> Option<Seq<char>> {
    if last_dot(s) > last_sep(s) {
        Some(s.subrange(last_dot(s) + 1, s.len() as int))
    } else {
        None
    }
}

/// Scans the path once for the positions [`last_sep`] and [`last_dot`]
/// speak of: the character after the last separator, and the last dot
/// shifted by one with 0 for none.
fn scan_path(path: &str) -> (r: (usize, usize))
    ensures
        r.0 == last_sep(path@),
        r.1 == last_dot(path@) + 1,
        r.1 <= path@.len(),
{
    let n = path.unicode_len();
    let mut sep: usize = 0;
    let mut dot_plus1: usize = 0;
    let mut i: usize = 0;
    while i < n
        invariant
            0 <= i <= n,
            n == path@.len(),
            sep == last_sep(path@.subrange(0, i as int)),
            dot_plus1 == last_dot(path@.subrange(0, i as int)) + 1,
            dot_plus1 <= i,
            sep <= i,
        decreases n - i,
    {
        let c = path.get_char(i);
        proof {
            assert(path@.subrange(0, i + 1).drop_last() =~= path@.subrange(0, i as int));
            assert(path@.subrange(0, i + 1).last() == path@[i as int]);
        }
        if c == '/' {
            sep = i + 1;
        }
        if c == '.' {
            dot_plus1 = i + 1;
        }
        i = i + 1;
    }
    proof {
        assert(path@.subrange(0, n as int) =~= path@);
    }
    (sep, dot_plus1)
}

/// Whether the path's extension is exactly the three given characters.
fn has_extension3(path: &str, c0: char, c1: char, c2: char) -> (r: bool)
    ensures
        r <==> extension_of(path@) == Some(seq![c0, c1, c2]),
{
    let n = path.unicode_len();
    let (sep, dot_plus1) = scan_path(path);
    if dot_plus1 == 0 || dot_plus1 - 1 <= sep {
        assert(extension_of(path@) is None);
        return false;
    }
    let ghost ext = path@.subrange(dot_plus1 as int, path@.len() as int);
    assert(extension_of(path@) == Some(ext));
    if n - dot_plus1 != 3 {
        assert(ext.len() != 3);
        return false;
    }
    let r = path.get_char(dot_plus1) == c0 && path.get_char(dot_plus1 + 1) == c1 && path.get_char(
        dot_plus1 + 2,
    ) == c2;
    proof {
        if r {
            assert(ext =~= seq![c0, c1, c2]);
        } else {
            assert(ext != seq![c0, c1, c2]);
        }
    }
    r
}

/// True for paths of 3D model files: extension `obj`.
pub fn check_if_obj(path: &str) -> (r: bool)
    ensures
        r <==> extension_of(path@) == Some("obj"@),
{
    let r = has_extension3(path, 'o', 'b', 'j');
    proof {
        reveal_strlit("obj");
        assert("obj"@ =~= seq!['o', 'b', 'j']);
    }
    r
}

/// True for paths of texture image files: extension `jpg` or `png`.
pub fn check_if_image(path: &str) -> (r: bool)
    ensures
        r <==> (extension_of(path@) == Some("jpg"@) || extension_of(path@) == Some("png"@)),
{
    let r = has_extension3(path, 'j', 'p', 'g') || has_extension3(path, 'p', 'n', 'g');
    proof {
        reveal_strlit("jpg");
        reveal_strlit("png");
        assert("jpg"@ =~= seq!['j', 'p', 'g']);
        assert("png"@ =~= seq!['p', 'n', 'g']);
    }
    r
}

} // verus!
