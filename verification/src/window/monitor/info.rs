use vstd::prelude::*;

use crate::window::rect::Rect;

verus! {

/// The rectangles of the monitors of the desktop, in the order in which the
/// desktop enumerates them; `None` before any monitor has been recorded.
pub struct Info {
    pub monitor_rects: Option<Vec<Rect>>,
}

impl Info {
    /// The recorded monitor rectangles.
    pub open spec fn rects_spec(&self) -> Option<Seq<Rect>> {
        match self.monitor_rects {
            Some(v) => Some(v@),
            None => None,
        }
    }

    pub fn new() -> (info: Self)
        ensures
            info.rects_spec() is None,
    {
        Info { monitor_rects: None }
    }

    /// Records the monitor rectangles that an enumeration of the desktop's
    /// monitors reports, in that order, in place of any recorded before.
    pub fn prepare_monitor_info(&mut self, enumerated_rects: &Vec<Rect>)
        ensures
            final(self).rects_spec() == (if enumerated_rects@.len() == 0 {
                None
            } else {
                Some(enumerated_rects@)
            }),
    {
        self.monitor_rects = None;

        let mut i: usize = 0;
        while i < enumerated_rects.len()
            invariant
                i <= enumerated_rects@.len(),
                self.rects_spec() == (if i == 0 {
                    None
                } else {
                    Some(enumerated_rects@.take(i as int))
                }),
            decreases enumerated_rects@.len() - i,
        {
            self.add_monitor_rect(enumerated_rects[i]);
            assert(enumerated_rects@.take(i as int).push(enumerated_rects@[i as int])
                =~= enumerated_rects@.take(i + 1));
            i = i + 1;
        }
        assert(enumerated_rects@.take(i as int) =~= enumerated_rects@);
    }

    /// Appends the rectangle of one more monitor.
    pub fn add_monitor_rect(&mut self, rect: Rect)
        ensures
            final(self).rects_spec() == Some(
                match old(self).rects_spec() {
                    Some(s) => s,
                    None => Seq::<Rect>::empty(),
                }.push(rect),
            ),
    {
        if let Some(combined_rect) = &self.monitor_rects {
            let mut rects_concat = combined_rect.clone();
            rects_concat.push(rect);

            self.monitor_rects = Some(rects_concat);
        } else {
            self.monitor_rects = Some(vec![rect]);
        }
    }
}

} // verus!
