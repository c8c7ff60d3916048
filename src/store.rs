use vstd::prelude::*;
use vstd::string::StringExecFns;

use crate::record::{texts, Show};

verus! {

/// The columns of the store's table, in the order a row is written.
pub open spec fn columns() -> Seq<Seq<char>> {
    seq![
        "showid"@,
        "showdate"@,
        "permalink"@,
        "showyear"@,
        "uniqueid"@,
        "meta"@,
        "reviews"@,
        "exclude"@,
        "setlistnotes"@,
        "soundcheck"@,
        "songid"@,
        "position"@,
        "transition"@,
        "footnote"@,
        "set"@,
        "isjam"@,
        "isreprise"@,
        "isjamchart"@,
        "jamchart_description"@,
        "tracktime"@,
        "gap"@,
        "tourid"@,
        "tourname"@,
        "tourwhen"@,
        "song"@,
        "nickname"@,
        "slug"@,
        "is_original"@,
        "venueid"@,
        "venue"@,
        "city"@,
        "state"@,
        "country"@,
        "trans_mark"@,
        "artistid"@,
        "artist_slug"@,
        "artist_name"@,
    ]
}

/// The values a record writes, one per column of [`columns`], in that order.
pub open spec fn row_values(s: Show) -> Seq<Seq<char>> {
    seq![
        s.showid@,
        s.showdate@,
        s.permalink@,
        s.showyear@,
        s.uniqueid@,
        s.meta@,
        s.reviews@,
        s.exclude@,
        s.setlistnotes@,
        s.soundcheck@,
        s.songid@,
        s.position@,
        s.transition@,
        s.footnote@,
        s.set@,
        s.isjam@,
        s.isreprise@,
        s.isjamchart@,
        s.jamchart_description@,
        s.tracktime@,
        s.gap@,
        s.tourid@,
        s.tourname@,
        s.tourwhen@,
        s.song@,
        s.nickname@,
        s.slug@,
        s.is_original@,
        s.venueid@,
        s.venue@,
        s.city@,
        s.state@,
        s.country@,
        s.trans_mark@,
        s.artistid@,
        s.artist_slug@,
        s.artist_name@,
    ]
}

/// The names of the table's columns, in the order of [`Show::row`].
pub fn column_names() -> (r: Vec<String>)
    ensures
        texts(r@) == columns(),
{
    let mut out: Vec<String> = Vec::new();
    out.push("showid".to_owned());
    out.push("showdate".to_owned());
    out.push("permalink".to_owned());
    out.push("showyear".to_owned());
    out.push("uniqueid".to_owned());
    out.push("meta".to_owned());
    out.push("reviews".to_owned());
    out.push("exclude".to_owned());
    out.push("setlistnotes".to_owned());
    out.push("soundcheck".to_owned());
    out.push("songid".to_owned());
    out.push("position".to_owned());
    out.push("transition".to_owned());
    out.push("footnote".to_owned());
    out.push("set".to_owned());
    out.push("isjam".to_owned());
    out.push("isreprise".to_owned());
    out.push("isjamchart".to_owned());
    out.push("jamchart_description".to_owned());
    out.push("tracktime".to_owned());
    out.push("gap".to_owned());
    out.push("tourid".to_owned());
    out.push("tourname".to_owned());
    out.push("tourwhen".to_owned());
    out.push("song".to_owned());
    out.push("nickname".to_owned());
    out.push("slug".to_owned());
    out.push("is_original".to_owned());
    out.push("venueid".to_owned());
    out.push("venue".to_owned());
    out.push("city".to_owned());
    out.push("state".to_owned());
    out.push("country".to_owned());
    out.push("trans_mark".to_owned());
    out.push("artistid".to_owned());
    out.push("artist_slug".to_owned());
    out.push("artist_name".to_owned());
    assert(texts(out@) =~= columns());
    out
}

impl Show {
    /// The values to write for this record, one per column, each field
    /// bound to the column of its own name.
    pub fn row(&self) -> (r: Vec<String>)
        ensures
            texts(r@) == row_values(*self),
    {
        let mut out: Vec<String> = Vec::new();
        out.push(self.showid.clone());
        out.push(self.showdate.clone());
        out.push(self.permalink.clone());
        out.push(self.showyear.clone());
        out.push(self.uniqueid.clone());
        out.push(self.meta.clone());
        out.push(self.reviews.clone());
        out.push(self.exclude.clone());
        out.push(self.setlistnotes.clone());
        out.push(self.soundcheck.clone());
        out.push(self.songid.clone());
        out.push(self.position.clone());
        out.push(self.transition.clone());
        out.push(self.footnote.clone());
        out.push(self.set.clone());
        out.push(self.isjam.clone());
        out.push(self.isreprise.clone());
        out.push(self.isjamchart.clone());
        out.push(self.jamchart_description.clone());
        out.push(self.tracktime.clone());
        out.push(self.gap.clone());
        out.push(self.tourid.clone());
        out.push(self.tourname.clone());
        out.push(self.tourwhen.clone());
        out.push(self.song.clone());
        out.push(self.nickname.clone());
        out.push(self.slug.clone());
        out.push(self.is_original.clone());
        out.push(self.venueid.clone());
        out.push(self.venue.clone());
        out.push(self.city.clone());
        out.push(self.state.clone());
        out.push(self.country.clone());
        out.push(self.trans_mark.clone());
        out.push(self.artistid.clone());
        out.push(self.artist_slug.clone());
        out.push(self.artist_name.clone());
        assert(texts(out@) =~= row_values(*self));
        out
    }
}

/// `n` positional parameters, separated by commas.
pub open spec fn slots(n: nat) -> Seq<char>
    decreases n,
{
    if n == 0 {
        Seq::empty()
    } else if n == 1 {
        "?"@
    } else {
        slots((n - 1) as nat) + ", ?"@
    }
}

/// The names in `names`, each in double quotes, separated by commas.
pub open spec fn quoted(names: Seq<Seq<char>>) -> Seq<char>
    decreases names.len(),
{
    if names.len() == 0 {
        Seq::empty()
    } else if names.len() == 1 {
        "\""@ + names[0] + "\""@
    } else {
        quoted(names.drop_last()) + ", \""@ + names.last() + "\""@
    }
}

/// The bulk lookup of the rows of `n` identifiers, bound in order.
pub open spec fn lookup_sql(n: nat) -> Seq<char> {
    "SELECT * FROM shows WHERE showid IN ("@ + slots(n) + ")"@
}

/// The insert of one row, one value per column of [`columns`], bound in
/// column order.
pub open spec fn insert_sql() -> Seq<char> {
    "INSERT INTO shows ("@ + quoted(columns()) + ") VALUES ("@ + slots(columns().len()) + ")"@
}

fn append_slots(out: &mut String, n: usize)
    ensures
        final(out)@ == old(out)@ + slots(n as nat),
{
    let mut i: usize = 0;
    while i < n
        invariant
            i <= n,
            out@ == old(out)@ + slots(i as nat),
        decreases n - i,
    {
        if i == 0 {
            out.append("?");
            assert(slots(1) == "?"@);
        } else {
            out.append(", ?");
            assert(slots((i + 1) as nat) == slots(i as nat) + ", ?"@);
        }
        assert(out@ =~= old(out)@ + slots((i + 1) as nat));
        i = i + 1;
    }
}

/// The statement for the bulk lookup of `n` identifiers.
pub fn lookup_statement(n: usize) -> (r: String)
    ensures
        r@ == lookup_sql(n as nat),
{
    let mut out = "SELECT * FROM shows WHERE showid IN (".to_owned();
    append_slots(&mut out, n);
    out.append(")");
    assert(out@ =~= lookup_sql(n as nat));
    out
}

/// The statement that writes one record, with the values of
/// [`Show::row`] bound in order.
pub fn insert_statement() -> (r: String)
    ensures
        r@ == insert_sql(),
{
    let names = column_names();
    let mut out = "INSERT INTO shows (".to_owned();
    let ghost start = out@;
    let mut i: usize = 0;
    while i < names.len()
        invariant
            i <= names@.len(),
            texts(names@) == columns(),
            start == "INSERT INTO shows ("@,
            out@ == start + quoted(columns().take(i as int)),
        decreases names@.len() - i,
    {
        let ghost pre = columns().take(i as int);
        assert(columns().take(i as int + 1).drop_last() =~= pre);
        assert(columns()[i as int] == names@[i as int]@);
        if i > 0 {
            out.append(", \"");
        } else {
            out.append("\"");
        }
        out.append(names[i].as_str());
        out.append("\"");
        proof {
            let next = columns().take(i as int + 1);
            assert(next.last() == names@[i as int]@);
            if i == 0 {
                assert(quoted(pre) =~= Seq::<char>::empty());
                assert(quoted(next) == "\""@ + next[0] + "\""@);
            } else {
                assert(quoted(next) == quoted(pre) + ", \""@ + next.last() + "\""@);
            }
            assert(out@ =~= start + quoted(next));
        }
        i = i + 1;
    }
    assert(columns().take(i as int) =~= columns());
    out.append(") VALUES (");
    append_slots(&mut out, names.len());
    out.append(")");
    assert(out@ =~= insert_sql());
    out
}

} // verus!
