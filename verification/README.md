# ogg_library

Tags captured Ogg Vorbis tracks and files them as

    <root>/<AlbumArtist>/<Album>/<Disc#>.<Track##> - <Title>.ogg

`src/` is the library: what a track is tagged with, where it goes, and which step follows which.
It is verified with Verus. `app/` performs the steps: files, network and threads.

- `text`: white space, trimming, decimal numbers
- `naming`: names that are safe on common filesystems
- `path`: paths as text, with `/` between components
- `request`: what is known of a track, and how lookups fill it in
- `layout`: the destination of a track
- `destination`: the search for a file name that does not exist yet
- `cover`: album art
- `tag`: the Vorbis comments of a track
- `file`: the tags of a file
- `organize`: the steps from a finished capture to an organized file
- `moves`: what holds of every move of a file
- `run`: what holds of every sequence of steps for a request
