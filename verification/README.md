# cache_loader_async

A cache for values that are expensive to come by. A key that is not in the cache is loaded by a
loader function, at most once at a time: whoever asks for it meanwhile gets the result of the same
load. Values can also be set, updated and removed, and what a caller sets wins over a load that is
under way.

The library in `src/` is written in Verus, and its contracts are proved. It decides what each
action does to the entries, what becomes of a request, and what is to be reported and announced
when a load ends. It never waits.

- `cache_api`: the handle on a cache, and the requests that are made through it.
- `exchange`: the stages of a request, and how its end is read.
- `internal_cache`: the entries, and what each action does to them.
- `backing`: where entries are kept. The default is a hash map; another backing implements
  `CacheBacking`, and may evict entries.
- `loading`: what follows the end of a load.
- `error`: the errors.
- `channels`: the queue of requests and the reply channels, each side with its identity.
- `laws`: what holds of several actions together, as proof functions.
- `outside`: the items of tokio that the library holds or calls, with what is trusted of them.

`app/` runs the library on tokio: it submits requests, calls the loader function, reports the end of
a load to the cache before it announces it to those who wait, then has the updates made that waited
for it, and offers the asynchronous `LoadingCache`.

What is proved of the entries rests on keys whose `Eq` and `Hash` agree with equality
(`obeys_key_model` in vstd).
