use vstd::prelude::*;

verus! {

/// One setlist entry: a single song performed at a show.
///
/// Every field is kept as the text the upstream service gave; only `showid`,
/// which names the show the entry belongs to, is ever interpreted.
#[derive(Debug, PartialEq, Eq)]
pub struct Show {
    pub showid: String,
    pub showdate: String,
    pub permalink: String,
    pub showyear: String,
    pub uniqueid: String,
    pub meta: String,
    pub reviews: String,
    pub exclude: String,
    pub setlistnotes: String,
    pub soundcheck: String,
    pub songid: String,
    pub position: String,
    pub transition: String,
    pub footnote: String,
    pub set: String,
    pub isjam: String,
    pub isreprise: String,
    pub isjamchart: String,
    pub jamchart_description: String,
    pub tracktime: String,
    pub gap: String,
    pub tourid: String,
    pub tourname: String,
    pub tourwhen: String,
    pub song: String,
    pub nickname: String,
    pub slug: String,
    pub is_original: String,
    pub venueid: String,
    pub venue: String,
    pub city: String,
    pub state: String,
    pub country: String,
    pub trans_mark: String,
    pub artistid: String,
    pub artist_slug: String,
    pub artist_name: String,
}

impl Clone for Show {
    fn clone(&self) -> (r: Self)
        ensures
            r == *self,
    {
        Show {
            showid: self.showid.clone(),
            showdate: self.showdate.clone(),
            permalink: self.permalink.clone(),
            showyear: self.showyear.clone(),
            uniqueid: self.uniqueid.clone(),
            meta: self.meta.clone(),
            reviews: self.reviews.clone(),
            exclude: self.exclude.clone(),
            setlistnotes: self.setlistnotes.clone(),
            soundcheck: self.soundcheck.clone(),
            songid: self.songid.clone(),
            position: self.position.clone(),
            transition: self.transition.clone(),
            footnote: self.footnote.clone(),
            set: self.set.clone(),
            isjam: self.isjam.clone(),
            isreprise: self.isreprise.clone(),
            isjamchart: self.isjamchart.clone(),
            jamchart_description: self.jamchart_description.clone(),
            tracktime: self.tracktime.clone(),
            gap: self.gap.clone(),
            tourid: self.tourid.clone(),
            tourname: self.tourname.clone(),
            tourwhen: self.tourwhen.clone(),
            song: self.song.clone(),
            nickname: self.nickname.clone(),
            slug: self.slug.clone(),
            is_original: self.is_original.clone(),
            venueid: self.venueid.clone(),
            venue: self.venue.clone(),
            city: self.city.clone(),
            state: self.state.clone(),
            country: self.country.clone(),
            trans_mark: self.trans_mark.clone(),
            artistid: self.artistid.clone(),
            artist_slug: self.artist_slug.clone(),
            artist_name: self.artist_name.clone(),
        }
    }
}

/// The show identifiers of a sequence of records, in order.
pub open spec fn ids_of(rows: Seq<Show>) -> Seq<Seq<char>> {
    rows.map_values(|r: Show| r.showid@)
}

/// The text of each string in a sequence.
pub open spec fn texts(v: Seq<String>) -> Seq<Seq<char>> {
    v.map_values(|s: String| s@)
}

/// Whether some record in `rows` belongs to the show `id`.
pub fn has_show(rows: &Vec<Show>, id: &String) -> (r: bool)
    ensures
        r == ids_of(rows@).contains(id@),
{
    let mut i: usize = 0;
    while i < rows.len()
        invariant
            i <= rows@.len(),
            forall|j: int| 0 <= j < i ==> rows@[j].showid@ != id@,
        decreases rows@.len() - i,
    {
        if rows[i].showid == *id {
            assert(ids_of(rows@)[i as int] == id@);
            return true;
        }
        i = i + 1;
    }
    proof {
        if ids_of(rows@).contains(id@) {
            let k = choose|k: int| 0 <= k < ids_of(rows@).len() && ids_of(rows@)[k] == id@;
            assert(rows@[k].showid@ == id@);
        }
    }
    false
}

/// Whether `id` occurs in `ids`.
pub fn has_id(ids: &Vec<String>, id: &String) -> (r: bool)
    ensures
        r == texts(ids@).contains(id@),
{
    let mut i: usize = 0;
    while i < ids.len()
        invariant
            i <= ids@.len(),
            forall|j: int| 0 <= j < i ==> ids@[j]@ != id@,
        decreases ids@.len() - i,
    {
        if ids[i] == *id {
            assert(texts(ids@)[i as int] == id@);
            return true;
        }
        i = i + 1;
    }
    proof {
        if texts(ids@).contains(id@) {
            let k = choose|k: int| 0 <= k < texts(ids@).len() && texts(ids@)[k] == id@;
            assert(ids@[k]@ == id@);
        }
    }
    false
}

} // verus!
