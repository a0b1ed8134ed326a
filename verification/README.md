# Kopuz integration

The parts of the Kopuz music player that talk to the outside: the Windows media
controls and taskbar toolbar, and the metadata feeds of radio stations.

`src/` is the verified library. It holds the decisions: which event a button
stands for, which window to use, how the toolbar and the "now playing" display
are set up step by step, and when a radio track is announced. Work that has to
be done outside (a system call, a request, a pause) appears as a stage or an
action; its outcome is handed back to the library, which decides what follows.

| module        | subject                                                     |
|---------------|-------------------------------------------------------------|
| `channel`     | the tokio channel that carries events and metadata          |
| `event`       | media-control events and their queue                        |
| `window`      | the search for the main window, what is known about windows |
| `text`        | UTF-16 and prefixes                                         |
| `icons`       | toolbar icons and where they are looked for                 |
| `taskbar`     | the thumbnail toolbar and its window procedure              |
| `smtc`        | attaching the media transport controls                      |
| `now_playing` | showing the current track                                   |
| `radio`       | when a track is announced                                   |
| `j1`          | the J1 stations                                             |
| `vocaloid`    | the Vocaloid station                                        |

`app/` performs the outside work, on Windows and over the network. It also does
what needs floating point: it turns seconds into ticks and back, and tells
whether a track's duration is positive.
