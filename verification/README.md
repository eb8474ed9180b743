# gesture_os_control

Hand gestures seen by a webcam drive the operating system: volume, windows,
virtual desktops, browser tabs, media keys and a guarded shutdown.

- `src/` is the verified library. It holds the gesture and command vocabulary,
  the per-mode bindings and their file form, context rules and their resolution,
  the temporal filter and the safety guard, the per-frame decision pipeline,
  the integer image work (scaling, mirroring, skin mask, face area, connected
  skin regions), camera naming and selection, the Windows command plans and the
  scheduling of the camera loop. Confidences are kept in thousandths and times
  in milliseconds.
- `tests/` runs the library on concrete values.
- `app/` is the desktop program around it: the egui window, the nokhwa camera,
  the MediaPipe helper process, the JSON files, the floating-point landmark
  estimation and gesture classifier, and the threads of the camera service.
  The MediaPipe helper script is expected next to the executable.
