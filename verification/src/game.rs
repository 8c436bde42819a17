//! The scene state of the game: which scene runs and how large the canvas is.
use vstd::prelude::*;

verus! {

/// The scene that the game shows; a running level carries its manager `L`.
pub enum CurrentScene<L> {
    Level(L),
    GameOver,
}

/// The game's state as far as its rules go: the canvas size in pixels,
/// whether the mouse is down over it, and the current scene.
pub struct State<L> {
    pub size: (u32, u32),
    pub mouse_pressed: bool,
    pub scene: CurrentScene<L>,
}

/// The size after a resize request: the new size where both sides are
/// positive, else the old one.
pub open spec fn resized_size(size: (u32, u32), new_size: (u32, u32)) -> (u32, u32) {
    if new_size.0 > 0 && new_size.1 > 0 {
        new_size
    } else {
        size
    }
}

/// Whether the scene after a level's update is the game-over screen.
pub open spec fn over_after_update<L>(scene: CurrentScene<L>, game_over: bool) -> bool {
    scene is GameOver || game_over
}

impl<L> State<L> {
    /// The game starts in `level`, on a canvas of `size`, with the mouse up.
    pub fn new(size: (u32, u32), level: L) -> (r: State<L>)
        ensures
            r.size == size,
            !r.mouse_pressed,
            r.scene == CurrentScene::Level(level),
    {
        State { size, mouse_pressed: false, scene: CurrentScene::Level(level) }
    }

    /// Takes a new canvas size. A size with a zero side is ignored. The
    /// result tells whether the running level must resize its camera too:
    /// that is so when the size was taken and a level runs.
    pub fn resize(&mut self, new_size: (u32, u32)) -> (resize_level: bool)
        ensures
            final(self).size == resized_size(old(self).size, new_size),
            final(self).mouse_pressed == old(self).mouse_pressed,
            final(self).scene == old(self).scene,
            resize_level == (new_size.0 > 0 && new_size.1 > 0 && old(self).scene is Level),
            new_size.0 > 0 && new_size.1 > 0 ==> final(self).size == new_size,
            new_size.0 == 0 || new_size.1 == 0 ==> final(self).size == old(self).size,
    {
        if new_size.0 > 0 && new_size.1 > 0 {
            self.size = new_size;
            match &self.scene {
                CurrentScene::Level(_) => true,
                CurrentScene::GameOver => false,
            }
        } else {
            false
        }
    }

    /// Ends the running level when its update reported the game over; the
    /// game-over screen stays as it is.
    pub fn finish_update(&mut self, game_over: bool)
        ensures
            final(self).size == old(self).size,
            final(self).mouse_pressed == old(self).mouse_pressed,
            final(self).scene is GameOver == over_after_update(old(self).scene, game_over),
            !over_after_update(old(self).scene, game_over) ==> final(self).scene == old(
                self,
            ).scene,
    {
        if game_over {
            self.scene = CurrentScene::GameOver;
        }
    }

    /// Whether a level runs.
    pub fn in_level(&self) -> (r: bool)
        ensures
            r == self.scene is Level,
    {
        match &self.scene {
            CurrentScene::Level(_) => true,
            CurrentScene::GameOver => false,
        }
    }
}

/// A second resize to the same size changes nothing more.
pub proof fn lemma_resize_idempotent(size: (u32, u32), new_size: (u32, u32))
    ensures
        resized_size(resized_size(size, new_size), new_size) == resized_size(size, new_size),
{
}

/// Once the game is over it stays over, whatever a later update reports.
pub proof fn lemma_game_over_absorbs<L>(scene: CurrentScene<L>, game_over: bool)
    requires
        scene is GameOver,
    ensures
        over_after_update(scene, game_over),
{
}

/// A size with both sides positive is taken as it is, whatever the old size
/// was.
pub proof fn lemma_resize_takes_positive_size(size: (u32, u32), new_size: (u32, u32))
    requires
        new_size.0 > 0,
        new_size.1 > 0,
    ensures
        resized_size(size, new_size) == new_size,
{
}

/// A size with a zero side leaves the old size in place.
pub proof fn lemma_resize_ignores_zero_side(size: (u32, u32), new_size: (u32, u32))
    requires
        new_size.0 == 0 || new_size.1 == 0,
    ensures
        resized_size(size, new_size) == size,
{
}

} // verus!
