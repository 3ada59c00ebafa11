//! Grid orientation and two-dimensional vectors.
use vstd::prelude::*;
use core::ops::{Add, Mul, Sub};
use vstd::std_specs::ops::{AddSpec, MulSpec, SubSpec};

verus! {

/// One of four directions on a grid.
#[derive(Copy, Clone, Debug, PartialEq, Eq, Structural)]
pub enum Direction4 {
    Up,
    Right,
    Down,
    Left,
}

impl Direction4 {
    /// The number of clockwise quarter turns from `Up`.
    pub open spec fn quarter_turns(self) -> int {
        match self {
            Direction4::Up => 0,
            Direction4::Right => 1,
            Direction4::Down => 2,
            Direction4::Left => 3,
        }
    }

    /// A quarter turn clockwise.
    pub fn rotate_right(self) -> (r: Self)
        ensures
            r.quarter_turns() == (self.quarter_turns() + 1) % 4,
    {
        match self {
            Direction4::Up => Direction4::Right,
            Direction4::Right => Direction4::Down,
            Direction4::Down => Direction4::Left,
            Direction4::Left => Direction4::Up,
        }
    }

    /// A quarter turn counter-clockwise.
    pub fn rotate_left(self) -> (r: Self)
        ensures
            r.quarter_turns() == (self.quarter_turns() + 3) % 4,
    {
        match self {
            Direction4::Up => Direction4::Left,
            Direction4::Right => Direction4::Up,
            Direction4::Down => Direction4::Right,
            Direction4::Left => Direction4::Down,
        }
    }

    /// A half turn.
    pub fn rotate_180(self) -> (r: Self)
        ensures
            r.quarter_turns() == (self.quarter_turns() + 2) % 4,
    {
        match self {
            Direction4::Up => Direction4::Down,
            Direction4::Right => Direction4::Left,
            Direction4::Down => Direction4::Up,
            Direction4::Left => Direction4::Right,
        }
    }
}

#[derive(Copy, Clone, Debug, PartialEq, Eq, Structural)]
pub enum AxisX {
    Left,
    Right,
}

#[derive(Copy, Clone, Debug, PartialEq, Eq, Structural)]
pub enum AxisY {
    Up,
    Down,
}

/// A vector of two coordinates (x, y), represented by integers or fixed
/// point numbers.
#[derive(Clone, Copy, PartialEq, Eq, Debug, Default)]
pub struct Vector2D<T> {
    /// The x coordinate
    pub x: T,
    /// The y coordinate
    pub y: T,
}

/// One coordinate moved from `cur` by `speed` towards `target`, without
/// passing it.
pub open spec fn step_towards(cur: int, target: int, speed: int) -> int {
    if cur > target {
        if cur - speed < target {
            target
        } else {
            cur - speed
        }
    } else if cur < target {
        if cur + speed > target {
            target
        } else {
            cur + speed
        }
    } else {
        cur
    }
}

/// The step from `cur` towards `target` stays within `i32`.
pub open spec fn step_fits(cur: i32, target: i32, speed: i32) -> bool {
    &&& cur > target ==> i32::MIN <= cur - speed <= i32::MAX
    &&& cur < target ==> i32::MIN <= cur + speed <= i32::MAX
}

fn axis_towards(cur: i32, target: i32, speed: i32) -> (r: i32)
    requires
        step_fits(cur, target, speed),
    ensures
        r == step_towards(cur as int, target as int, speed as int),
{
    let mut r = cur;
    if r > target {
        r -= speed;
        if r < target {
            r = target;
        }
    } else if r < target {
        r += speed;
        if r > target {
            r = target;
        }
    }
    r
}

impl Vector2D<i32> {
    /// Moves each coordinate by `speed` towards `target`, stopping on it
    /// rather than passing it.
    pub fn move_towards(&mut self, target: Vector2D<i32>, speed: i32)
        requires
            step_fits(old(self).x, target.x, speed),
            step_fits(old(self).y, target.y, speed),
        ensures
            final(self).x == step_towards(old(self).x as int, target.x as int, speed as int),
            final(self).y == step_towards(old(self).y as int, target.y as int, speed as int),
    {
        self.x = axis_towards(self.x, target.x, speed);
        self.y = axis_towards(self.y, target.y, speed);
    }
}

impl<T: Add<Output = T>> Add<Vector2D<T>> for Vector2D<T> {
    type Output = Vector2D<T>;

    fn add(self, rhs: Vector2D<T>) -> Vector2D<T> {
        Vector2D { x: self.x + rhs.x, y: self.y + rhs.y }
    }
}

impl<T: Add<Output = T>> vstd::std_specs::ops::AddSpecImpl<Vector2D<T>> for Vector2D<T> {
    open spec fn obeys_add_spec() -> bool {
        T::obeys_add_spec()
    }

    open spec fn add_req(self, rhs: Vector2D<T>) -> bool {
        self.x.add_req(rhs.x) && self.y.add_req(rhs.y)
    }

    open spec fn add_spec(self, rhs: Vector2D<T>) -> Vector2D<T> {
        Vector2D { x: self.x.add_spec(rhs.x), y: self.y.add_spec(rhs.y) }
    }
}

impl<T: Sub<Output = T>> Sub<Vector2D<T>> for Vector2D<T> {
    type Output = Vector2D<T>;

    fn sub(self, rhs: Vector2D<T>) -> Vector2D<T> {
        Vector2D { x: self.x - rhs.x, y: self.y - rhs.y }
    }
}

impl<T: Sub<Output = T>> vstd::std_specs::ops::SubSpecImpl<Vector2D<T>> for Vector2D<T> {
    open spec fn obeys_sub_spec() -> bool {
        T::obeys_sub_spec()
    }

    open spec fn sub_req(self, rhs: Vector2D<T>) -> bool {
        self.x.sub_req(rhs.x) && self.y.sub_req(rhs.y)
    }

    open spec fn sub_spec(self, rhs: Vector2D<T>) -> Vector2D<T> {
        Vector2D { x: self.x.sub_spec(rhs.x), y: self.y.sub_spec(rhs.y) }
    }
}

impl<T: Mul<Output = T>> Mul<Vector2D<T>> for Vector2D<T> {
    type Output = Vector2D<T>;

    fn mul(self, rhs: Vector2D<T>) -> Vector2D<T> {
        Vector2D { x: self.x * rhs.x, y: self.y * rhs.y }
    }
}

impl<T: Mul<Output = T>> vstd::std_specs::ops::MulSpecImpl<Vector2D<T>> for Vector2D<T> {
    open spec fn obeys_mul_spec() -> bool {
        T::obeys_mul_spec()
    }

    open spec fn mul_req(self, rhs: Vector2D<T>) -> bool {
        self.x.mul_req(rhs.x) && self.y.mul_req(rhs.y)
    }

    open spec fn mul_spec(self, rhs: Vector2D<T>) -> Vector2D<T> {
        Vector2D { x: self.x.mul_spec(rhs.x), y: self.y.mul_spec(rhs.y) }
    }
}

impl<T: Mul<Output = T> + Copy> Mul<T> for Vector2D<T> {
    type Output = Vector2D<T>;

    fn mul(self, rhs: T) -> Vector2D<T> {
        Vector2D { x: self.x * rhs, y: self.y * rhs }
    }
}

impl<T: Mul<Output = T> + Copy> vstd::std_specs::ops::MulSpecImpl<T> for Vector2D<T> {
    open spec fn obeys_mul_spec() -> bool {
        T::obeys_mul_spec()
    }

    open spec fn mul_req(self, rhs: T) -> bool {
        self.x.mul_req(rhs) && self.y.mul_req(rhs)
    }

    open spec fn mul_spec(self, rhs: T) -> Vector2D<T> {
        Vector2D { x: self.x.mul_spec(rhs), y: self.y.mul_spec(rhs) }
    }
}

} // verus!
