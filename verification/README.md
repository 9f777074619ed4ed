# snapt

Snapt docks the foreground window to a half of the screen, or to the whole
screen, when a hotkey is pressed, and sits in the notification area, where
its menu pauses, resumes or closes it.

`src/` is the verified library: the geometry of docking (`window`), the
hotkeys and how pressed keys select one (`hotkeys`), the state behind the
notification menu, the message handling of the interface window and its
tooltip text (`snapt`). `app/` is the Windows program around it: it reads
the keyboard, measures and moves windows, and runs the notification icon,
asking the library what to do at each step.
