use vstd::prelude::*;
use crate::text::{lowercased, same_text, to_lowercase};

verus! {

/// The audio formats the scan picks up, by their extension in lower case.
pub open spec fn audio_extensions() -> Seq<Seq<char>> {
    seq!["mp3"@, "flac"@, "wav"@, "ogg"@, "aac"@, "m4a"@, "wma"@, "ape"@, "alac"@]
}

/// Whether a file with extension `ext` is a music file that the scan lists:
/// MP3, FLAC, WAV, OGG, AAC, M4A, WMA, APE or ALAC, in any letter case.
pub fn is_audio_extension(ext: &str) -> (r: bool)
    ensures
        r == audio_extensions().contains(lowercased(ext@)),
{
    let e = to_lowercase(ext);
    let s = e.as_str();
    let found = same_text(s, "mp3") || same_text(s, "flac") || same_text(s, "wav")
        || same_text(s, "ogg") || same_text(s, "aac") || same_text(s, "m4a")
        || same_text(s, "wma") || same_text(s, "ape") || same_text(s, "alac");
    proof {
        let l = lowercased(ext@);
        let exts = audio_extensions();
        if found {
            let k: int = if l == "mp3"@ {
                0
            } else if l == "flac"@ {
                1
            } else if l == "wav"@ {
                2
            } else if l == "ogg"@ {
                3
            } else if l == "aac"@ {
                4
            } else if l == "m4a"@ {
                5
            } else if l == "wma"@ {
                6
            } else if l == "ape"@ {
                7
            } else {
                8
            };
            assert(exts[k] == l);
        } else {
            assert forall|k: int| 0 <= k < exts.len() implies exts[k] != l by {}
        }
    }
    found
}

/// The scan takes exactly the nine music formats: an extension counts when,
/// in lower case, it is one of mp3, flac, wav, ogg, aac, m4a, wma, ape and
/// alac, and no other extension does.
pub proof fn lemma_audio_extensions_are_the_nine_formats(e: Seq<char>)
    ensures
        audio_extensions().contains(e) <==> (e == "mp3"@ || e == "flac"@ || e == "wav"@ || e == "ogg"@
            || e == "aac"@ || e == "m4a"@ || e == "wma"@ || e == "ape"@ || e == "alac"@),
        audio_extensions().len() == 9,
{
    let exts = audio_extensions();
    if e == "mp3"@ {
        assert(exts[0] == e);
    } else if e == "flac"@ {
        assert(exts[1] == e);
    } else if e == "wav"@ {
        assert(exts[2] == e);
    } else if e == "ogg"@ {
        assert(exts[3] == e);
    } else if e == "aac"@ {
        assert(exts[4] == e);
    } else if e == "m4a"@ {
        assert(exts[5] == e);
    } else if e == "wma"@ {
        assert(exts[6] == e);
    } else if e == "ape"@ {
        assert(exts[7] == e);
    } else if e == "alac"@ {
        assert(exts[8] == e);
    }
}

} // verus!
