# media_remote

A remote control for the media player of a Windows desktop, served as a web
page. The library holds what the server computes, with its contracts proved
by Verus:

- `frontend`: the markup of the control page (head, buttons, media info
  panel, volume slider), as maud renders it;
- `mediainfo`: what is playing, and how the page shows it;
- `message`: what a websocket message of the page asks for, and what the
  desktop is then to do;
- `keyboard`: the keys that the controls tap, and their virtual-key codes;
- `markup`: escaping and numbers in markup.

`app/` is the server: the warp routes and websocket loop, and the Windows
calls that read the media session, send key input and set the volume.
