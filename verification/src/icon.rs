//! The tray icon: its canvas and mask sizes, the key its cached handle is shared under, and the
//! fixed-size UTF-16 text fields of the notification data.
use vstd::prelude::*;

use crate::surface::{color_pixel, dpi_to_icon_canvas, icon_canvas_spec, icon_pixel_color, status_color, TrayStatus};
use crate::text::{chars_of, encode_utf16_char, utf16_of, utf16_of_char};

verus! {

/// The icon canvas size for a DPI, as an unsigned pixel count.
pub fn dpi_to_canvas_size(dpi: u32) -> (c: u32)
    ensures
        c == icon_canvas_spec(dpi),
{
    dpi_to_icon_canvas(dpi) as u32
}

/// The byte size of a 1-bit-per-pixel mask of a square canvas: each scan line padded to a
/// multiple of four bytes, times the number of lines.
pub fn mask_buffer_len(canvas: i32) -> (n: usize)
    requires
        0 <= canvas <= i32::MAX - 31,
        ((canvas + 31) / 32) * 4 * canvas <= usize::MAX,
    ensures
        n == ((canvas + 31) / 32) * 4 * canvas,
{
    let line_bytes: i32 = ((canvas + 31) / 32) * 4;
    assert(0 <= line_bytes as int * canvas as int <= 0x7fff_ffff * 0x7fff_ffff) by (nonlinear_arith)
        requires
            0 <= line_bytes <= 0x7fff_ffff,
            0 <= canvas <= 0x7fff_ffff,
    ;
    (line_bytes as usize) * (canvas as usize)
}

/// The key a cached tray icon is shared under: its pixel color and its canvas size.
#[derive(Clone, Copy, Debug, PartialEq, Eq, Structural)]
pub struct IconCacheKey {
    pub color: u32,
    pub canvas: i32,
}

/// The cache key of the icon for a status at a DPI.
pub fn icon_cache_key(status: TrayStatus, dpi: u32) -> (k: IconCacheKey)
    ensures
        k.color == color_pixel(status_color(status)),
        k.canvas == icon_canvas_spec(dpi),
{
    IconCacheKey { color: icon_pixel_color(status), canvas: dpi_to_canvas_size(dpi) as i32 }
}

/// The number of leading characters of `s` whose UTF-16 encoding fits in `max` code units.
pub open spec fn fitted_count(s: Seq<char>, max: int) -> nat
    decreases s.len(),
{
    if s.len() == 0 || utf16_of(s).len() <= max {
        s.len()
    } else {
        fitted_count(s.drop_last(), max)
    }
}

/// The encoding of one more character extends the encoding of the shorter prefix.
pub proof fn lemma_utf16_take_next(s: Seq<char>, i: int)
    requires
        0 <= i < s.len(),
    ensures
        utf16_of(s.take(i + 1)) == utf16_of(s.take(i)) + utf16_of_char(s[i]),
{
    assert(s.take(i + 1).drop_last() =~= s.take(i));
}

/// Encodings of longer prefixes are not shorter.
pub proof fn lemma_utf16_prefix_monotone(s: Seq<char>, j: int, i: int)
    requires
        0 <= j <= i <= s.len(),
    ensures
        utf16_of(s.take(j)).len() <= utf16_of(s.take(i)).len(),
    decreases i - j,
{
    if j < i {
        lemma_utf16_prefix_monotone(s, j, i - 1);
        lemma_utf16_take_next(s, i - 1);
    }
}

/// A prefix of `k` characters that fits, where one more character would not, is exactly the
/// fitted prefix.
pub proof fn lemma_fitted_count_is(s: Seq<char>, max: int, k: int)
    requires
        0 <= k <= s.len(),
        0 <= max,
        utf16_of(s.take(k)).len() <= max,
        k == s.len() || utf16_of(s.take(k + 1)).len() > max,
    ensures
        fitted_count(s, max) == k,
    decreases s.len(),
{
    if k == s.len() {
        assert(s.take(k) =~= s);
    } else {
        lemma_utf16_prefix_monotone(s, k + 1, s.len() as int);
        assert(s.take(s.len() as int) =~= s);
        let t = s.drop_last();
        assert(t.take(k) =~= s.take(k));
        if k + 1 <= t.len() {
            assert(t.take(k + 1) =~= s.take(k + 1));
        }
        lemma_fitted_count_is(t, max, k);
    }
}

/// What a text field holds after the text is written into it: the UTF-16 encoding of the
/// longest prefix of whole characters that leaves room for the terminating zero, then zeros.
pub open spec fn truncated_field(text: Seq<char>, n: nat) -> Seq<u16> {
    let encoded = utf16_of(text.take(fitted_count(text, n - 1) as int));
    encoded + Seq::new((n - encoded.len()) as nat, |j: int| 0u16)
}

/// Writes `text` into a fixed-size UTF-16 field: every unit is cleared, then whole characters
/// are copied while they fit before the last unit, which always stays zero.
pub fn truncate_utf16_into_buffer(buffer: &mut [u16], text: &str)
    ensures
        final(buffer)@.len() == old(buffer)@.len(),
        old(buffer)@.len() > 0 ==> final(buffer)@ == truncated_field(text@, old(buffer)@.len()),
{
    let n = buffer.len();
    let mut z: usize = 0;
    while z < n
        invariant
            n == buffer@.len(),
            0 <= z <= n,
            forall|j: int| 0 <= j < z ==> buffer@[j] == 0u16,
        decreases n - z,
    {
        buffer[z] = 0;
        z = z + 1;
    }
    if n == 0 {
        return;
    }
    let max_len = n - 1;
    let chars = chars_of(text);
    let mut written: usize = 0;
    let mut i: usize = 0;
    assert(utf16_of(text@.take(0)) =~= Seq::<u16>::empty());
    loop
        invariant
            chars@ == text@,
            n == buffer@.len(),
            max_len == n - 1,
            0 <= i <= chars@.len(),
            written == utf16_of(text@.take(i as int)).len(),
            written <= max_len,
            buffer@.subrange(0, written as int) == utf16_of(text@.take(i as int)),
            forall|j: int| written <= j < n ==> buffer@[j] == 0u16,
        ensures
            0 <= i <= chars@.len(),
            written == utf16_of(text@.take(i as int)).len(),
            written <= max_len,
            buffer@.subrange(0, written as int) == utf16_of(text@.take(i as int)),
            forall|j: int| written <= j < n ==> buffer@[j] == 0u16,
            i == chars@.len() || utf16_of(text@.take(i + 1)).len() > max_len,
        decreases chars@.len() - i,
    {
        if i == chars.len() {
            break;
        }
        let units = encode_utf16_char(chars[i]);
        proof {
            lemma_utf16_take_next(text@, i as int);
        }
        if units.len() > max_len - written {
            break;
        }
        let ghost start = written;
        let mut k: usize = 0;
        while k < units.len()
            invariant
                n == buffer@.len(),
                max_len == n - 1,
                chars@ == text@,
                i < chars@.len(),
                units@ == utf16_of_char(text@[i as int]),
                start + units@.len() <= max_len,
                written == start + k,
                0 <= k <= units@.len(),
                buffer@.subrange(0, start as int) == utf16_of(text@.take(i as int)),
                forall|j: int| 0 <= j < k ==> buffer@[start + j] == units@[j],
                forall|j: int| written <= j < n ==> buffer@[j] == 0u16,
            decreases units@.len() - k,
        {
            buffer[written] = units[k];
            written = written + 1;
            k = k + 1;
        }
        proof {
            assert(buffer@.subrange(0, written as int) =~= utf16_of(text@.take(i as int)) + units@);
        }
        i = i + 1;
    }
    proof {
        lemma_fitted_count_is(text@, max_len as int, i as int);
        assert(buffer@ =~= truncated_field(text@, n as nat));
    }
}

/// The fitted prefix is a prefix whose encoding fits.
pub proof fn lemma_fitted_prefix_fits(s: Seq<char>, max: int)
    requires
        0 <= max,
    ensures
        fitted_count(s, max) <= s.len(),
        utf16_of(s.take(fitted_count(s, max) as int)).len() <= max,
    decreases s.len(),
{
    if s.len() == 0 || utf16_of(s).len() <= max {
        assert(s.take(s.len() as int) =~= s);
    } else {
        let t = s.drop_last();
        lemma_fitted_prefix_fits(t, max);
        assert(t.take(fitted_count(t, max) as int) =~= s.take(fitted_count(t, max) as int));
    }
}

/// A written text field keeps its size, always ends with a zero unit, and holds the encoding of
/// whole characters only; text whose encoding fits entirely is kept entirely.
pub proof fn lemma_truncated_field_is_terminated(text: Seq<char>, n: nat)
    requires
        n > 0,
    ensures
        truncated_field(text, n).len() == n,
        truncated_field(text, n)[n - 1] == 0u16,
        utf16_of(text).len() < n ==> truncated_field(text, n).subrange(
            0,
            utf16_of(text).len() as int,
        ) == utf16_of(text),
{
    lemma_fitted_prefix_fits(text, n - 1);
    let k = fitted_count(text, n - 1);
    let encoded = utf16_of(text.take(k as int));
    assert(encoded.len() <= n - 1);
    if utf16_of(text).len() < n {
        if text.len() == 0 {
            assert(text.take(0) =~= text);
        } else {
            assert(text.take(text.len() as int) =~= text);
        }
        assert(truncated_field(text, n).subrange(0, utf16_of(text).len() as int) =~= utf16_of(
            text,
        ));
    }
}

/// Copies the UTF-16 encoding of a tooltip into the tip field, unit by unit, as far as both
/// reach; units past the text keep their value.
pub fn copy_tip_text(tip: &mut [u16], text: &str)
    ensures
        final(tip)@.len() == old(tip)@.len(),
        forall|i: int|
            0 <= i < old(tip)@.len() ==> #[trigger] final(tip)@[i] == (if i < utf16_of(
                text@,
            ).len() {
                utf16_of(text@)[i]
            } else {
                old(tip)@[i]
            }),
{
    let encoded = crate::text::wide(text);
    let units = encoded.len() - 1;
    let mut i: usize = 0;
    while i < tip.len() && i < units
        invariant
            encoded@ == utf16_of(text@).push(0u16),
            units == utf16_of(text@).len(),
            tip@.len() == old(tip)@.len(),
            0 <= i <= tip@.len(),
            i <= units,
            forall|k: int|
                0 <= k < old(tip)@.len() ==> #[trigger] tip@[k] == (if k < i {
                    utf16_of(text@)[k]
                } else {
                    old(tip)@[k]
                }),
        decreases tip@.len() - i,
    {
        tip[i] = encoded[i];
        i = i + 1;
    }
}

/// The handle cached for `key`, if any.
pub open spec fn lookup(entries: Seq<(IconCacheKey, usize)>, key: IconCacheKey) -> Option<usize>
    decreases entries.len(),
{
    if entries.len() == 0 {
        None
    } else if entries.last().0 == key {
        Some(entries.last().1)
    } else {
        lookup(entries.drop_last(), key)
    }
}

/// The shared tray icons, one handle per cache key. A handle is the address of an icon the
/// cache owns until it is emptied at shutdown.
pub struct IconCache {
    entries: Vec<(IconCacheKey, usize)>,
}

impl IconCache {
    /// The cached keys and handles, oldest first.
    pub closed spec fn entries_view(&self) -> Seq<(IconCacheKey, usize)> {
        self.entries@
    }

    /// No key appears twice.
    #[verifier::type_invariant]
    closed spec fn keys_unique(&self) -> bool {
        forall|i: int, j: int|
            0 <= i < j < self.entries@.len() ==> self.entries@[i].0 != self.entries@[j].0
    }

    /// An empty cache.
    pub fn new() -> (c: IconCache)
        ensures
            c.entries_view() == Seq::<(IconCacheKey, usize)>::empty(),
    {
        IconCache { entries: Vec::new() }
    }

    /// The handle cached for `key`, without creating anything.
    pub fn cached_icon_handle(&self, key: IconCacheKey) -> (h: Option<usize>)
        ensures
            h == lookup(self.entries_view(), key),
    {
        let mut i = self.entries.len();
        assert(self.entries@.subrange(0, i as int) =~= self.entries@);
        while i > 0
            invariant
                0 <= i <= self.entries@.len(),
                lookup(self.entries@, key) == lookup(self.entries@.subrange(0, i as int), key),
            decreases i,
        {
            let entry = self.entries[i - 1];
            proof {
                assert(self.entries@.subrange(0, i as int).drop_last() =~= self.entries@.subrange(
                    0,
                    i - 1,
                ));
            }
            if entry.0 == key {
                return Some(entry.1);
            }
            i = i - 1;
        }
        None
    }

    /// Stores a freshly created handle for `key` unless the key is cached already.
    pub fn cache_icon_handle(&mut self, key: IconCacheKey, handle: usize)
        ensures
            final(self).entries_view() == (if lookup(old(self).entries_view(), key) is Some {
                old(self).entries_view()
            } else {
                old(self).entries_view().push((key, handle))
            }),
    {
        proof {
            use_type_invariant(&*self);
        }
        let found = self.cached_icon_handle(key);
        if found.is_none() {
            proof {
                lemma_lookup_none_means_absent(self.entries@, key);
            }
            let mut entries: Vec<(IconCacheKey, usize)> = Vec::new();
            std::mem::swap(&mut entries, &mut self.entries);
            entries.push((key, handle));
            self.entries = entries;
        }
    }

    /// Empties the cache and hands back every handle, oldest first, for destruction.
    pub fn take_all(&mut self) -> (handles: Vec<usize>)
        ensures
            final(self).entries_view() == Seq::<(IconCacheKey, usize)>::empty(),
            handles@ == old(self).entries_view().map_values(|e: (IconCacheKey, usize)| e.1),
    {
        let mut handles: Vec<usize> = Vec::new();
        let mut i: usize = 0;
        while i < self.entries.len()
            invariant
                0 <= i <= self.entries@.len(),
                handles@ == self.entries@.subrange(0, i as int).map_values(
                    |e: (IconCacheKey, usize)| e.1,
                ),
            decreases self.entries@.len() - i,
        {
            handles.push(self.entries[i].1);
            i = i + 1;
            assert(handles@ =~= self.entries@.subrange(0, i as int).map_values(
                |e: (IconCacheKey, usize)| e.1,
            ));
        }
        assert(self.entries@.subrange(0, i as int) =~= self.entries@);
        let mut emptied: Vec<(IconCacheKey, usize)> = Vec::new();
        std::mem::swap(&mut emptied, &mut self.entries);
        handles
    }
}

/// A key that is not found appears in no entry.
pub proof fn lemma_lookup_none_means_absent(entries: Seq<(IconCacheKey, usize)>, key: IconCacheKey)
    requires
        lookup(entries, key) is None,
    ensures
        forall|i: int| 0 <= i < entries.len() ==> entries[i].0 != key,
    decreases entries.len(),
{
    if entries.len() > 0 {
        lemma_lookup_none_means_absent(entries.drop_last(), key);
        assert forall|i: int| 0 <= i < entries.len() implies entries[i].0 != key by {
            if i < entries.len() - 1 {
                assert(entries[i] == entries.drop_last()[i]);
            }
        }
    }
}

/// Caching a handle under a new key makes later lookups of that key find it, and leaves every
/// other key's lookup unchanged; caching under a known key changes nothing.
pub proof fn lemma_cache_read_after_write(
    entries: Seq<(IconCacheKey, usize)>,
    key: IconCacheKey,
    handle: usize,
    other: IconCacheKey,
)
    ensures
        lookup(entries, key) is None ==> lookup(entries.push((key, handle)), key) == Some(handle),
        other != key ==> lookup(entries.push((key, handle)), other) == lookup(entries, other),
{
    assert(entries.push((key, handle)).drop_last() =~= entries);
}

} // verus!
