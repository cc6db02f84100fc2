//! The audio catalog: scanned-file records and the scanner's filtering
//! rules.
//!
//! Walking directories is filesystem work done outside this crate; the
//! scanner here owns the decision rules: which file names count as audio
//! files, and how a listing is filtered down to them.

use vstd::prelude::*;

use crate::config::AppConfig;

verus! {

/// One catalogued audio file.
#[derive(Clone, Debug, PartialEq)]
pub struct AudioData {
    path: String,
    name: String,
    author: String,
    album: String,
}

impl AudioData {
    pub closed spec fn spec_path(&self) -> Seq<char> {
        self.path@
    }

    pub closed spec fn spec_name(&self) -> Seq<char> {
        self.name@
    }

    pub closed spec fn spec_author(&self) -> Seq<char> {
        self.author@
    }

    pub closed spec fn spec_album(&self) -> Seq<char> {
        self.album@
    }

    pub fn new(path: String, name: String, author: String, album: String) -> (d: AudioData)
        ensures
            d.spec_path() == path@,
            d.spec_name() == name@,
            d.spec_author() == author@,
            d.spec_album() == album@,
    {
        AudioData { path, name, author, album }
    }
}

/// The audio file extension the scanner accepts.
pub open spec fn spec_audio_extension() -> Seq<char> {
    seq!['o', 'p', 'u', 's']
}

/// Position `i` splits `name` into a stem and the accepted audio
/// extension: a dot after the first character, no later dot, and exactly
/// the extension following it.
pub open spec fn is_extension_split(name: Seq<char>, i: int) -> bool {
    &&& 0 < i < name.len()
    &&& name[i] == '.'
    &&& (forall|j: int| i < j < name.len() ==> name[j] != '.')
    &&& name.subrange(i + 1, name.len() as int) == spec_audio_extension()
}

/// Whether a file name carries the accepted audio extension.
pub open spec fn spec_is_audio_file(name: Seq<char>) -> bool {
    exists|i: int| is_extension_split(name, i)
}

/// Scans the catalog's music directory for audio files. The directory
/// walk itself is filesystem work done by the surrounding application;
/// the scanner holds the configuration naming the directory and decides
/// which names belong in the catalog.
#[derive(Clone, Debug)]
pub struct AudioScanner {
    config: AppConfig,
}

impl AudioScanner {
    pub closed spec fn spec_config(&self) -> AppConfig {
        self.config
    }

    pub fn new(config: AppConfig) -> (s: AudioScanner)
        ensures
            s.spec_config() == config,
    {
        AudioScanner { config }
    }

    pub fn set_config(&mut self, config: AppConfig)
        ensures
            final(self).spec_config() == config,
    {
        self.config = config;
    }

    /// The directory the scanner walks.
    pub fn music_dir(&self) -> (d: &String)
        ensures
            d@ == self.spec_config().spec_music_dir(),
    {
        &self.config.dir.music_dir
    }

    /// Whether a file name names an audio file the catalog accepts:
    /// its extension — what follows the last dot, when that dot is not
    /// the leading character — must be the accepted audio extension.
    pub fn check_file_extension(file: &str) -> (r: bool)
        ensures
            r == spec_is_audio_file(file@),
    {
        let n = file.unicode_len();
        let mut i: usize = n;
        while i > 0
            invariant
                i <= n,
                n == file@.len(),
                forall|j: int| i <= j < n ==> file@[j] != '.',
            decreases i,
        {
            i = i - 1;
            let c = file.get_char(i);
            if c == '.' {
                if i == 0 {
                    // A leading dot is a hidden file, not an extension.
                    proof {
                        assert forall|k: int| !is_extension_split(file@, k) by {
                            if 0 < k < file@.len() && file@[k] == '.' {
                                assert(file@[0] == '.');
                            }
                        }
                    }
                    return false;
                }
                if n - i != 5 {
                    proof {
                        lemma_only_last_dot(file@, i as int);
                        if spec_is_audio_file(file@) {
                            let k = choose|k: int| is_extension_split(file@, k);
                            assert(file@.subrange(k + 1, file@.len() as int).len() == 4);
                        }
                    }
                    return false;
                }
                let ok = file.get_char(i + 1) == 'o' && file.get_char(i + 2) == 'p'
                    && file.get_char(i + 3) == 'u' && file.get_char(i + 4) == 's';
                proof {
                    if ok {
                        assert(file@.subrange(i + 1, file@.len() as int)
                            =~= spec_audio_extension());
                        assert(is_extension_split(file@, i as int));
                    } else {
                        lemma_only_last_dot(file@, i as int);
                        if spec_is_audio_file(file@) {
                            let k = choose|k: int| is_extension_split(file@, k);
                            assert(k == i);
                            assert(file@.subrange(k + 1, file@.len() as int)[0] == file@[i + 1]);
                            assert(file@.subrange(k + 1, file@.len() as int)[1] == file@[i + 2]);
                            assert(file@.subrange(k + 1, file@.len() as int)[2] == file@[i + 3]);
                            assert(file@.subrange(k + 1, file@.len() as int)[3] == file@[i + 4]);
                        }
                    }
                }
                return ok;
            }
        }
        proof {
            assert forall|k: int| !is_extension_split(file@, k) by {}
        }
        false
    }

    /// Filters a directory listing down to the audio files, keeping their
    /// order: exactly the names that carry the accepted extension.
    pub fn filter_audio_files(names: Vec<String>) -> (out: Vec<String>)
        ensures
            out@ == names@.filter(|s: String| spec_is_audio_file(s@)),
    {
        let mut out: Vec<String> = Vec::new();
        let n = names.len();
        let mut rest = names;
        let ghost all = rest@;
        let mut i: usize = 0;
        while i < n
            invariant
                i <= n,
                n == all.len(),
                rest@ == all.skip(i as int),
                out@ == all.take(i as int).filter(|s: String| spec_is_audio_file(s@)),
            decreases n - i,
        {
            let ghost pre = out@;
            let item = rest.remove(0);
            proof {
                assert(item == all[i as int]);
                assert(all.skip(i as int).remove(0) =~= all.skip(i + 1));
            }
            let keep = Self::check_file_extension(item.as_str());
            if keep {
                out.push(item);
            }
            proof {
                reveal(Seq::filter);
                assert(all.take(i + 1).drop_last() =~= all.take(i as int));
                assert(all.take(i + 1).last() == all[i as int]);
                if keep {
                    assert(out@ =~= pre.push(all[i as int]));
                }
            }
            i = i + 1;
        }
        proof {
            assert(all.take(n as int) =~= all);
        }
        out
    }
}

/// If `name[d]` is a dot with no later dot, then any extension split of
/// `name` must sit at `d` itself.
proof fn lemma_only_last_dot(name: Seq<char>, d: int)
    requires
        0 <= d < name.len(),
        name[d] == '.',
        forall|j: int| d < j < name.len() ==> name[j] != '.',
    ensures
        forall|k: int| #[trigger] is_extension_split(name, k) ==> k == d,
{
    assert forall|k: int| #[trigger] is_extension_split(name, k) implies k == d by {
        if k < d {
            assert(name[d] == '.');
        } else if k > d {
            assert(name[k] == '.');
        }
    }
}

} // verus!
