use vstd::prelude::*;

verus! {

/// What the application holds between calls: whether a run is in progress
/// and the choices it was started with.
pub struct AppState {
    pub is_generating: bool,
    pub model: String,
    pub media_file: String,
    pub output_dir: String,
}

impl AppState {
    pub fn new() -> (r: Self)
        ensures
            !r.is_generating,
            r.model@ == Seq::<char>::empty(),
            r.media_file@ == Seq::<char>::empty(),
            r.output_dir@ == Seq::<char>::empty(),
    {
        AppState {
            is_generating: false,
            model: String::new(),
            media_file: String::new(),
            output_dir: String::new(),
        }
    }

    /// Claims the state for a new run: refused while another run is in
    /// progress, so that two runs never share the scratch files.
    pub fn try_begin_run(&mut self) -> (r: bool)
        ensures
            r == !old(self).is_generating,
            final(self).is_generating,
            final(self).model == old(self).model,
            final(self).media_file == old(self).media_file,
            final(self).output_dir == old(self).output_dir,
    {
        if self.is_generating {
            false
        } else {
            self.is_generating = true;
            true
        }
    }

    /// Marks the run in progress as finished.
    pub fn end_run(&mut self)
        ensures
            !final(self).is_generating,
            final(self).model == old(self).model,
            final(self).media_file == old(self).media_file,
            final(self).output_dir == old(self).output_dir,
    {
        self.is_generating = false;
    }
}

} // verus!
